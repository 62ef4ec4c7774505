use neutron::base::OpKind;
use neutron::frontend::messages::parse_model;
use neutron::frontend::names::Names;
use neutron::frontend::proto::{read_string_field, sub_cursor, Cursor, WT_FIXED32, WT_FIXED64, WT_LEN, WT_VARINT};
use neutron::frontend::{dsl, onnx};
use neutron::storage::AttrKey;

fn field(n: u8, wire: u8, payload: &[u8]) -> Vec<u8> {
    let mut b = vec![(n << 3) | wire];
    if wire == 2 {
        b.push(payload.len() as u8);
    }
    b.extend_from_slice(payload);
    b
}

fn long_field(n: u32, payload: &[u8]) -> Vec<u8> {
    let tag = (n << 3) | 2;
    let mut b = vec![(tag & 0x7f) as u8 | 0x80, (tag >> 7) as u8];
    if tag < 0x80 {
        b = vec![tag as u8];
    }
    b.push(payload.len() as u8);
    b.extend_from_slice(payload);
    b
}

fn model(graph: &[Vec<u8>]) -> Vec<u8> {
    field(7, 2, &graph.concat())
}

fn dsl_err(src: &str) -> String {
    dsl::parse(src).unwrap_err().message()
}

#[test]
fn varints_take_up_to_ten_bytes() {
    let mut c = Cursor::new(&[0xff, 0xff, 0xff, 0xff, 0xff, 0xff, 0xff, 0xff, 0xff, 0x01]);
    assert_eq!(c.read_varint().unwrap(), u64::MAX);
    assert!(c.eof());
    let mut c = Cursor::new(&[0x80; 11]);
    assert_eq!(c.read_varint().unwrap_err().message(), "前端错误: varint 过长");
    let mut c = Cursor::new(&[0x80]);
    assert_eq!(c.read_varint().unwrap_err().message(), "前端错误: varint 意外结束");
}

#[test]
fn lengths_beyond_the_end_are_errors() {
    let mut c = Cursor::new(&[4, 1, 2, 3]);
    assert_eq!(
        c.read_length_delimited().unwrap_err().message(),
        "前端错误: length-delimited 越界"
    );
    let mut c = Cursor::new(&[4, 1, 2, 3]);
    assert_eq!(c.skip_field(WT_LEN).unwrap_err().message(), "前端错误: skip 越界");
    let mut c = Cursor::new(&[]);
    assert_eq!(c.skip_field(3).unwrap_err().message(), "前端错误: 未知 wire_type: 3");
}

#[test]
fn fields_are_skipped_by_their_wire_type() {
    let mut c = Cursor::new(&[0x96, 0x01, 2, 7, 7, 0, 0, 0, 0, 9]);
    c.skip_field(WT_VARINT).unwrap();
    assert_eq!(c.pos, 2);
    c.skip_field(WT_LEN).unwrap();
    assert_eq!(c.pos, 5);
    c.skip_field(WT_FIXED32).unwrap();
    assert_eq!(c.remaining(), &[9]);
    c.skip_field(WT_FIXED64).unwrap();
    assert!(c.eof());
}

#[test]
fn strings_have_to_be_utf8() {
    assert_eq!(read_string_field("名".as_bytes()).unwrap(), "名");
    assert_eq!(
        read_string_field(&[b'a', 0xff]).unwrap_err().message(),
        "前端错误: UTF-8 解码失败: invalid utf-8 sequence of 1 bytes from index 1"
    );
    assert!(sub_cursor(&[]).eof());
}

#[test]
fn the_first_registration_of_a_name_stays() {
    let mut n = Names::new();
    n.register("a", 1);
    n.register("a", 2);
    assert_eq!(n.get("a"), Some(1));
    n.insert("a", 3);
    assert_eq!(n.get("a"), Some(3));
    assert_eq!(n.get("b"), None);
}

#[test]
fn unknown_names_become_the_largest_number() {
    let node = [field(1, 2, b"nowhere"), field(2, 2, b"y"), field(3, 2, b"Relu")].concat();
    let g = onnx::parse(&model(&[field(1, 2, &node), field(2, 2, b"net")])).unwrap();
    assert_eq!(g.name, "net");
    assert_eq!(g.node(0).unwrap().inputs(), &[u32::MAX]);
    assert!(g.is_well_formed());
    assert!(!g.is_extractable());
}

#[test]
fn unknown_operators_keep_their_name() {
    let node = [field(2, 2, b"y"), field(3, 2, b"Foo")].concat();
    let g = onnx::parse(&model(&[field(1, 2, &node)])).unwrap();
    let n = g.node(0).unwrap();
    assert_eq!(n.kind, OpKind::Custom);
    let e = n.attrs()[0];
    assert_eq!(e.key, AttrKey::Shape.code());
    assert_eq!(n.storage.attr_int_array(&e), vec!['F' as i64, 'o' as i64, 'o' as i64]);
}

#[test]
fn doubles_and_single_elements_are_read() {
    let t = [
        field(1, 0, &[2]),
        field(2, 0, &[11]),
        field(7, 1, &1.5f64.to_le_bytes()),
        field(7, 2, &(-2.0f64).to_le_bytes()),
        field(8, 2, b"w"),
    ]
    .concat();
    let m = parse_model(&model(&[field(5, 2, &t)])).unwrap();
    let got: Vec<f64> = m.initializers[0].values.iter().map(|b| f64::from_bits(*b)).collect();
    assert_eq!(got, vec![1.5, -2.0]);
    assert_eq!(m.initializers[0].dims, vec![2]);
    assert_eq!(m.initializers[0].data_type, 11);
}

#[test]
fn raw_data_replaces_elements_and_drops_a_rest() {
    let mut raw = 3.0f32.to_le_bytes().to_vec();
    raw.push(1);
    let t = [
        field(2, 0, &[1]),
        field(4, 5, &9.0f32.to_le_bytes()),
        field(9, 2, &raw),
        field(8, 2, b"w"),
    ]
    .concat();
    let m = parse_model(&model(&[field(5, 2, &t)])).unwrap();
    assert_eq!(m.initializers[0].values, vec![3.0f64.to_bits()]);
}

#[test]
fn tensors_without_a_name_are_left_out() {
    let t = [field(2, 0, &[1]), field(4, 5, &9.0f32.to_le_bytes())].concat();
    assert!(parse_model(&model(&[field(5, 2, &t)])).unwrap().initializers.is_empty());
}

#[test]
fn cut_off_numbers_are_errors() {
    let err = |g: Vec<u8>| parse_model(&model(&[g])).unwrap_err().message();
    let attr = field(4, 5, &[0, 0]);
    let node = field(5, 2, &attr);
    assert_eq!(err(field(1, 2, &node)), "前端错误: AttributeProto.f 越界");
    assert_eq!(err(field(5, 2, &field(4, 5, &[0]))), "前端错误: TensorProto.float_data 越界");
    assert_eq!(err(field(5, 2, &field(7, 1, &[0; 7]))), "前端错误: TensorProto.double_data 越界");
}

#[test]
fn attribute_values_are_chosen_by_kind() {
    let attr = |parts: &[Vec<u8>]| {
        let node = field(5, 2, &[vec![field(1, 2, b"axis")], parts.to_vec()].concat().concat());
        let n = [field(3, 2, b"Concat"), node].concat();
        let g = onnx::parse(&model(&[field(1, 2, &n)])).unwrap();
        let view = g.node(0).unwrap();
        view.attrs().first().map(|e| view.storage.attr_int(e))
    };
    assert_eq!(attr(&[field(5, 0, &[3])]), Some(3));
    assert_eq!(attr(&[field(4, 5, &1.0f32.to_le_bytes()), field(5, 0, &[3])]), Some(3));
    assert_eq!(attr(&[field(4, 5, &1.0f32.to_le_bytes())]), None);
    assert_eq!(attr(&[long_field(21, &[1, 2])]), None);
    assert_eq!(attr(&[]), None);
}

#[test]
fn errors_of_the_text_format() {
    assert_eq!(dsl_err("in x f32"), "前端错误: 第 1 行输入缺 ':' : x f32");
    assert_eq!(dsl_err("\nout q"), "前端错误: 第 2 行输出未定义: q");
    assert_eq!(dsl_err("y = relu"), "前端错误: 第 1 行节点缺 '(': relu");
    assert_eq!(dsl_err("y = relu(z)"), "前端错误: 第 1 行参数未定义: z");
    assert_eq!(dsl_err("in x: f32[2"), "前端错误: 第 1 行类型缺 ']': f32[2");
    assert_eq!(dsl_err("in x: f64"), "前端错误: 第 1 行未知 dtype: f64");
    assert_eq!(dsl_err("what is this"), "前端错误: 第 1 行无法解析: what is this");
}

#[test]
fn text_graphs_are_well_formed_and_extractable() {
    let g = dsl::parse("graph \"t\"\r\nin x: i64[4, ?,2] // c\r\ny = Add(x, y)\nz = tanh(y)\nout z").unwrap();
    assert_eq!(g.name, "t");
    assert!(g.is_well_formed() && g.is_extractable());
    assert_eq!(g.value(0).unwrap().shape(), &[4, -1, 2]);
    assert_eq!(g.node(0).unwrap().inputs(), &[0, 1]);
    assert_eq!(g.outputs(), &[2]);
    assert_eq!(g.inputs(), &[0]);
}

#[test]
fn scalars_have_no_shape() {
    let g = dsl::parse("in s: bool\nin t: f16[]\nout s").unwrap();
    assert!(!g.value(0).unwrap().is_tensor());
    assert!(g.value(0).unwrap().shape().is_empty());
    assert!(g.value(1).unwrap().is_tensor());
    assert_eq!(g.value(1).unwrap().shape(), &[-1]);
}

#[test]
fn comments_are_passed_over() {
    let plain = dsl::parse("graph \"g\"\nin x: f32[2,3]\n\ny = add(x, x)\nout y").unwrap();
    let noted = dsl::parse(
        "graph \"g\" // a name\n  in x: f32[2,3] // y = relu(x)\n// nothing\ny = add(x, x)\t//\nout y//z",
    )
    .unwrap();
    assert_eq!(plain.summary(), noted.summary());
    assert_eq!(plain.storage.edges, noted.storage.edges);
    assert_eq!(plain.storage.name_data, noted.storage.name_data);
    assert_eq!(dsl_err("// a comment\nout z // unknown"), dsl_err("\nout z"));
}

#[test]
fn unused_fields_are_passed_over() {
    let node = [field(1, 2, b"x"), field(2, 2, b"y"), field(3, 2, b"Relu")].concat();
    let noted = [
        field(1, 2, b"x"),
        field(9, 0, &[5]),
        field(2, 2, b"y"),
        field(6, 2, b"a note"),
        field(3, 2, b"Relu"),
        field(14, 5, &[1, 2, 3, 4]),
    ]
    .concat();
    let plain = parse_model(&model(&[field(1, 2, &node), field(11, 2, &field(1, 2, b"x"))])).unwrap();
    let mut bytes = field(1, 0, &[8]);
    bytes.extend(model(&[
        field(10, 2, b"a note"),
        field(1, 2, &noted),
        field(11, 2, &field(1, 2, b"x")),
    ]));
    bytes.extend(field(8, 2, b"\x10\x0d"));
    let found = parse_model(&bytes).unwrap();
    assert_eq!(format!("{plain:?}"), format!("{found:?}"));
}

fn elements(fields: &[Vec<u8>]) -> Vec<f64> {
    let t = [fields.concat(), field(8, 2, b"w")].concat();
    let m = parse_model(&model(&[field(5, 2, &t)])).unwrap();
    m.initializers[0].values.iter().map(|b| f64::from_bits(*b)).collect()
}

#[test]
fn only_floating_point_tensors_have_elements() {
    let t = vec![0x10, 0x06, 0x22, 0x04, 0x00, 0x00, 0x80, 0x3F];
    assert!(elements(&[t.clone()]).is_empty());
    let m = parse_model(&model(&[field(5, 2, &[t, field(8, 2, b"w")].concat())])).unwrap();
    assert_eq!(m.initializers[0].data_type, 6);
    let one = field(4, 5, &1.0f32.to_le_bytes());
    assert!(elements(&[one.clone()]).is_empty());
    assert!(elements(&[field(2, 0, &[7]), field(9, 2, &[0; 8])]).is_empty());
    assert_eq!(elements(&[one, field(2, 0, &[1])]), vec![1.0]);
}

#[test]
fn raw_data_comes_before_listed_elements() {
    let float = field(2, 0, &[1]);
    let double = field(2, 0, &[11]);
    let raw = field(9, 2, &3.0f32.to_le_bytes());
    let wide = field(9, 2, &5.0f64.to_le_bytes());
    let one = field(4, 5, &9.0f32.to_le_bytes());
    let many = field(4, 2, &[9.0f32.to_le_bytes(), 8.0f32.to_le_bytes()].concat());
    assert_eq!(elements(&[float.clone(), raw.clone(), one.clone(), many.clone()]), vec![3.0]);
    assert_eq!(elements(&[one.clone(), raw.clone(), float.clone()]), vec![3.0]);
    assert_eq!(elements(&[wide.clone(), double.clone()]), vec![5.0]);
    assert_eq!(elements(&[raw.clone(), field(9, 2, &[1, 2]), float.clone()]), vec![3.0]);
    assert_eq!(elements(&[raw, double, one.clone()]), vec![9.0]);
    assert_eq!(elements(&[float, field(9, 2, &[1, 2]), one, many]), vec![9.0, 9.0, 8.0]);
}

#[test]
fn operator_names_ignore_case() {
    for name in ["RELU", "Relu", "relu", "rElU"] {
        let g = dsl::parse(&format!("in x: f32[2]\ny = {name}(x)\nout y")).unwrap();
        assert_eq!(g.node(0).unwrap().kind, OpKind::Relu, "{name}");
    }
    assert_eq!(dsl::map_dsl_op("LAYERNORM"), OpKind::LayerNorm);
    assert_eq!(dsl::map_dsl_op("GeMM"), OpKind::MatMul);
    assert_eq!(dsl::map_dsl_op("ReduceMEAN"), OpKind::ReduceMean);
    assert_eq!(dsl::map_dsl_op("Relu6"), OpKind::Custom);
}
