//! The messages of an ONNX model, as far as the compiler reads them.

use vstd::prelude::*;
use crate::base::{ErrorModel, Result};
use crate::bytes::{le_value, read_le, signed};
use crate::float_bits::{widen, widened};
use crate::frontend::proto::{
    Cursor, Payload, PayloadModel, field_at, field_moves_on, frontend_error, frontend_failure, left,
    number_at, number_end, read_string_field, text_field, varint_moves_on,
};
use crate::storage::unpack_words;
use crate::text::texts;

verus! {

/// What reading a message yields.
pub type Parsed<T> = std::result::Result<T, ErrorModel>;

/// `acc`, then the numbers from `i` to the end.
pub open spec fn numbers_from(d: Seq<u8>, i: nat, acc: Seq<i64>) -> Parsed<Seq<i64>>
    decreases d.len() - i,
{
    if i >= d.len() {
        Ok(acc)
    } else {
        proof {
            varint_moves_on(d, i, 0);
        }
        match number_at(d, i) {
            Ok(v) => numbers_from(d, number_end(d, i), acc.push(signed(v))),
            Err(e) => Err(e),
        }
    }
}

fn read_numbers(buf: &[u8], out: &mut Vec<i64>) -> (r: Result<()>)
    ensures
        match r {
            Ok(_) => numbers_from(buf@, 0, old(out)@) == Ok::<Seq<i64>, ErrorModel>(final(out)@),
            Err(e) => numbers_from(buf@, 0, old(out)@) == Err::<Seq<i64>, ErrorModel>(e@),
        },
{
    let mut c = Cursor::new(buf);
    while !c.eof()
        invariant
            c.data@ == buf@,
            numbers_from(buf@, 0, old(out)@) == numbers_from(buf@, c.pos as nat, out@),
        decreases buf@.len() - c.pos,
    {
        proof {
            varint_moves_on(buf@, c.pos as nat, 0);
        }
        match c.read_varint() {
            Ok(v) => out.push(v as i64),
            Err(e) => {
                return Err(e);
            },
        }
    }
    Ok(())
}

/// The single precision number in four bytes, widened.
pub open spec fn single(b: Seq<u8>) -> u64 {
    widened(le_value(b) as u32)
}

/// The single precision numbers in a byte sequence, widened; a shorter rest is
/// dropped.
pub open spec fn singles(b: Seq<u8>) -> Seq<u64> {
    Seq::new((b.len() / 4) as nat, |i: int| single(b.subrange(4 * i, 4 * i + 4)))
}

fn read_single(buf: &[u8], off: usize) -> (r: u64)
    requires
        off + 4 <= buf@.len(),
    ensures
        r == single(buf@.subrange(off as int, off + 4)),
{
    proof {
        crate::bytes::le_value_bound(buf@.subrange(off as int, off + 4));
        crate::bytes::pow256_values();
    }
    widen(read_le(buf, off, 4) as u32)
}

fn read_singles(buf: &[u8]) -> (r: Vec<u64>)
    ensures
        r@ == singles(buf@),
{
    let count: usize = buf.len() / 4;
    let mut out: Vec<u64> = Vec::new();
    let mut i: usize = 0;
    while i < count
        invariant
            i <= count,
            count == buf@.len() / 4,
            buf@.len() <= usize::MAX,
            out@ == singles(buf@).take(i as int),
        decreases count - i,
    {
        out.push(read_single(buf, 4 * i));
        i += 1;
        assert(singles(buf@).take(i as int) == singles(buf@).take(i - 1).push(singles(buf@)[i - 1]));
    }
    assert(singles(buf@).take(count as int) == singles(buf@));
    out
}

fn read_doubles(buf: &[u8]) -> (r: Vec<u64>)
    ensures
        r@ == unpack_words(buf@),
{
    let count: usize = buf.len() / 8;
    let mut out: Vec<u64> = Vec::new();
    let mut i: usize = 0;
    while i < count
        invariant
            i <= count,
            count == buf@.len() / 8,
            buf@.len() <= usize::MAX,
            out@ == unpack_words(buf@).take(i as int),
        decreases count - i,
    {
        out.push(read_le(buf, 8 * i, 8));
        i += 1;
        assert(unpack_words(buf@).take(i as int) == unpack_words(buf@).take(i - 1).push(
            unpack_words(buf@)[i - 1],
        ));
    }
    assert(unpack_words(buf@).take(count as int) == unpack_words(buf@));
    out
}

/// The value of an attribute.
#[derive(Debug)]
pub enum AttrValue {
    Absent,
    Int(i64),
    /// A float, by its bits.
    Float(u64),
    Ints(Vec<i64>),
}

/// An attribute of a node.
#[derive(Debug)]
pub struct AttrInfo {
    pub name: String,
    pub value: AttrValue,
}

/// What the value of an attribute says.
pub enum AttrValueModel {
    Absent,
    Int(i64),
    Float(u64),
    Ints(Seq<i64>),
}

/// What an attribute says.
pub struct AttrInfoModel {
    pub name: Seq<char>,
    pub value: AttrValueModel,
}

impl View for AttrValue {
    type V = AttrValueModel;

    open spec fn view(&self) -> AttrValueModel {
        match self {
            AttrValue::Absent => AttrValueModel::Absent,
            AttrValue::Int(v) => AttrValueModel::Int(*v),
            AttrValue::Float(v) => AttrValueModel::Float(*v),
            AttrValue::Ints(v) => AttrValueModel::Ints(v@),
        }
    }
}

impl View for AttrInfo {
    type V = AttrInfoModel;

    open spec fn view(&self) -> AttrInfoModel {
        AttrInfoModel { name: self.name@, value: self.value@ }
    }
}

/// What the attributes of a sequence say.
pub open spec fn attr_models(s: Seq<AttrInfo>) -> Seq<AttrInfoModel> {
    Seq::new(s.len(), |i: int| s[i]@)
}

/// An attribute that is being read.
pub struct AttrParts {
    pub name: Seq<char>,
    pub int: Option<i64>,
    pub float: Option<u64>,
    pub ints: Seq<i64>,
}

impl AttrParts {
    /// Nothing read yet.
    pub open spec fn none() -> AttrParts {
        AttrParts { name: Seq::empty(), int: None, float: None, ints: Seq::empty() }
    }

    /// The attribute: an integer comes before a float, and that before a list.
    pub open spec fn whole(self) -> AttrInfoModel {
        AttrInfoModel {
            name: self.name,
            value: if self.int is Some {
                AttrValueModel::Int(self.int->0)
            } else if self.float is Some {
                AttrValueModel::Float(self.float->0)
            } else if self.ints.len() > 0 {
                AttrValueModel::Ints(self.ints)
            } else {
                AttrValueModel::Absent
            },
        }
    }

    /// With one more field.
    pub open spec fn with(self, n: u32, p: PayloadModel) -> Parsed<AttrParts> {
        match (n, p) {
            (1, PayloadModel::Len(b)) => match text_field(b) {
                Ok(s) => Ok(AttrParts { name: s, ..self }),
                Err(e) => Err(e),
            },
            (4, PayloadModel::Fixed32(b)) => if b.len() < 4 {
                Err(frontend_error("AttributeProto.f 越界"@))
            } else {
                Ok(AttrParts { float: Some(single(b)), ..self })
            },
            (5, PayloadModel::Varint(v)) => Ok(AttrParts { int: Some(signed(v)), ..self }),
            (21, PayloadModel::Len(b)) => match numbers_from(b, 0, self.ints) {
                Ok(v) => Ok(AttrParts { ints: v, ..self }),
                Err(e) => Err(e),
            },
            (21, PayloadModel::Varint(v)) => Ok(
                AttrParts { ints: self.ints.push(signed(v)), ..self },
            ),
            _ => Ok(self),
        }
    }
}

/// The fields under which an attribute takes byte sequences.
pub open spec fn attr_known() -> Seq<u32> {
    seq![1, 6, 7, 8, 20, 21]
}

/// The attribute whose parts `a` were read, from `i` on.
pub open spec fn attr_from(d: Seq<u8>, i: nat, a: AttrParts) -> Parsed<AttrInfoModel>
    decreases left(d, i),
{
    if i >= d.len() {
        Ok(a.whole())
    } else {
        proof {
            field_moves_on(d, i, attr_known());
        }
        match field_at(d, i, attr_known()) {
            Ok((n, p, j)) => match a.with(n, p) {
                Ok(b) => attr_from(d, j, b),
                Err(e) => Err(e),
            },
            Err(e) => Err(e),
        }
    }
}

fn parse_attribute(buf: &[u8]) -> (r: Result<AttrInfo>)
    requires
        buf@.len() + 8 <= usize::MAX,
    ensures
        match r {
            Ok(a) => attr_from(buf@, 0, AttrParts::none()) == Ok::<AttrInfoModel, ErrorModel>(a@),
            Err(e) => attr_from(buf@, 0, AttrParts::none()) == Err::<AttrInfoModel, ErrorModel>(e@),
        },
{
    let known: [u32; 6] = [1, 6, 7, 8, 20, 21];
    assert(known@ == attr_known());
    let mut c = Cursor::new(buf);
    let mut name = String::new();
    let mut int_val: Option<i64> = None;
    let mut float_val: Option<u64> = None;
    let mut ints_val: Vec<i64> = Vec::new();
    while !c.eof()
        invariant
            c.data@ == buf@,
            buf@.len() + 8 <= usize::MAX,
            known@ == attr_known(),
            attr_from(buf@, 0, AttrParts::none()) == attr_from(
                buf@,
                c.pos as nat,
                (AttrParts { name: name@, int: int_val, float: float_val, ints: ints_val@ }),
            ),
        decreases left(buf@, c.pos as nat),
    {
        proof {
            field_moves_on(buf@, c.pos as nat, attr_known());
        }
        match c.next_field(known.as_slice()) {
            Err(e) => {
                return Err(e);
            },
            Ok(f) => match (f.number, f.payload) {
                (1, Payload::Len(b)) => match read_string_field(b) {
                    Ok(s) => {
                        name = s;
                    },
                    Err(e) => {
                        return Err(e);
                    },
                },
                (4, Payload::Fixed32(b)) => {
                    if b.len() < 4 {
                        return Err(frontend_failure("AttributeProto.f 越界"));
                    }
                    assert(b@.len() == 4);
                    assert(b@.subrange(0, 4) == b@);
                    float_val = Some(read_single(b, 0));
                },
                (5, Payload::Varint(v)) => {
                    int_val = Some(v as i64);
                },
                (21, Payload::Len(b)) => match read_numbers(b, &mut ints_val) {
                    Ok(_) => {},
                    Err(e) => {
                        return Err(e);
                    },
                },
                (21, Payload::Varint(v)) => {
                    ints_val.push(v as i64);
                },
                _ => {},
            },
        }
    }
    let value = if let Some(v) = int_val {
        AttrValue::Int(v)
    } else if let Some(v) = float_val {
        AttrValue::Float(v)
    } else if ints_val.len() > 0 {
        AttrValue::Ints(ints_val)
    } else {
        AttrValue::Absent
    };
    Ok(AttrInfo { name, value })
}

/// A tensor that a model starts with.
#[derive(Debug)]
pub struct TensorInfo {
    pub name: String,
    pub dims: Vec<i64>,
    /// The number of the element type: 1 for single, 11 for double precision.
    pub data_type: i64,
    /// The elements, as the bits of double precision numbers; none for other
    /// element types.
    pub values: Vec<u64>,
}

/// What a tensor says.
pub struct TensorInfoModel {
    pub name: Seq<char>,
    pub dims: Seq<i64>,
    pub data_type: i64,
    pub values: Seq<u64>,
}

impl View for TensorInfo {
    type V = TensorInfoModel;

    open spec fn view(&self) -> TensorInfoModel {
        TensorInfoModel {
            name: self.name@,
            dims: self.dims@,
            data_type: self.data_type,
            values: self.values@,
        }
    }
}

/// What the tensors of a sequence say.
pub open spec fn tensor_models(s: Seq<TensorInfo>) -> Seq<TensorInfoModel> {
    Seq::new(s.len(), |i: int| s[i]@)
}

/// Whether the elements of a type are read: single or double precision.
pub open spec fn has_elements(data_type: i64) -> bool {
    data_type == 1 || data_type == 11
}

/// What was read of a tensor so far: `listed` are the elements that stand one
/// by one, `singles` and `doubles` those of the raw data, taken as either type.
pub struct TensorParts {
    pub name: Seq<char>,
    pub dims: Seq<i64>,
    pub data_type: i64,
    pub listed: Seq<u64>,
    pub singles: Seq<u64>,
    pub doubles: Seq<u64>,
}

impl TensorParts {
    /// Nothing read yet.
    pub open spec fn none() -> TensorParts {
        TensorParts {
            name: Seq::empty(),
            dims: Seq::empty(),
            data_type: 0,
            listed: Seq::empty(),
            singles: Seq::empty(),
            doubles: Seq::empty(),
        }
    }

    /// The elements of the raw data, by the element type.
    pub open spec fn raw(self) -> Seq<u64> {
        if self.data_type == 1 {
            self.singles
        } else {
            self.doubles
        }
    }

    /// The tensor. It has elements in single or double precision only; raw data
    /// that holds an element comes before listed elements.
    pub open spec fn whole(self) -> TensorInfoModel {
        TensorInfoModel {
            name: self.name,
            dims: self.dims,
            data_type: self.data_type,
            values: if !has_elements(self.data_type) {
                Seq::empty()
            } else if self.raw().len() > 0 {
                self.raw()
            } else {
                self.listed
            },
        }
    }

    /// With raw data: it replaces earlier raw data if it holds an element.
    pub open spec fn with_raw(self, raw: Seq<u8>) -> TensorParts {
        TensorParts {
            singles: if singles(raw).len() > 0 {
                singles(raw)
            } else {
                self.singles
            },
            doubles: if unpack_words(raw).len() > 0 {
                unpack_words(raw)
            } else {
                self.doubles
            },
            ..self
        }
    }

    /// With one more field.
    pub open spec fn with(self, n: u32, p: PayloadModel) -> Parsed<TensorParts> {
        match (n, p) {
            (1, PayloadModel::Len(b)) => match numbers_from(b, 0, self.dims) {
                Ok(v) => Ok(TensorParts { dims: v, ..self }),
                Err(e) => Err(e),
            },
            (1, PayloadModel::Varint(v)) => Ok(
                TensorParts { dims: self.dims.push(signed(v)), ..self },
            ),
            (2, PayloadModel::Varint(v)) => Ok(TensorParts { data_type: signed(v), ..self }),
            (4, PayloadModel::Len(b)) => Ok(
                TensorParts { listed: self.listed + singles(b), ..self },
            ),
            (4, PayloadModel::Fixed32(b)) => if b.len() < 4 {
                Err(frontend_error("TensorProto.float_data 越界"@))
            } else {
                Ok(TensorParts { listed: self.listed.push(single(b)), ..self })
            },
            (7, PayloadModel::Len(b)) => Ok(
                TensorParts { listed: self.listed + unpack_words(b), ..self },
            ),
            (7, PayloadModel::Fixed64(b)) => if b.len() < 8 {
                Err(frontend_error("TensorProto.double_data 越界"@))
            } else {
                Ok(TensorParts { listed: self.listed.push(le_value(b) as u64), ..self })
            },
            (8, PayloadModel::Len(b)) => match text_field(b) {
                Ok(s) => Ok(TensorParts { name: s, ..self }),
                Err(e) => Err(e),
            },
            (9, PayloadModel::Len(b)) => Ok(self.with_raw(b)),
            _ => Ok(self),
        }
    }
}

/// The fields under which a tensor takes byte sequences.
pub open spec fn tensor_known() -> Seq<u32> {
    seq![1, 4, 7, 8, 9]
}

/// The tensor whose parts `t` were read, from `i` on.
pub open spec fn tensor_from(d: Seq<u8>, i: nat, t: TensorParts) -> Parsed<TensorInfoModel>
    decreases left(d, i),
{
    if i >= d.len() {
        Ok(t.whole())
    } else {
        proof {
            field_moves_on(d, i, tensor_known());
        }
        match field_at(d, i, tensor_known()) {
            Ok((n, p, j)) => match t.with(n, p) {
                Ok(u) => tensor_from(d, j, u),
                Err(e) => Err(e),
            },
            Err(e) => Err(e),
        }
    }
}

/// Only a tensor of single or double precision has elements.
pub proof fn only_floats_have_elements(d: Seq<u8>, i: nat, t: TensorParts)
    requires
        tensor_from(d, i, t) is Ok,
    ensures
        !has_elements(tensor_from(d, i, t)->Ok_0.data_type) ==> tensor_from(d, i, t)->Ok_0.values
            == Seq::<u64>::empty(),
    decreases left(d, i),
{
    if i < d.len() {
        field_moves_on(d, i, tensor_known());
        if let Ok((n, p, j)) = field_at(d, i, tensor_known()) {
            if let Ok(u) = t.with(n, p) {
                only_floats_have_elements(d, j, u);
            }
        }
    }
}

fn append_values(out: &mut Vec<u64>, more: Vec<u64>)
    ensures
        final(out)@ == old(out)@ + more@,
{
    out.extend_from_slice(more.as_slice());
    assert(out@ == old(out)@ + more@);
}

fn parse_tensor(buf: &[u8]) -> (r: Result<TensorInfo>)
    requires
        buf@.len() + 8 <= usize::MAX,
    ensures
        match r {
            Ok(t) => tensor_from(buf@, 0, TensorParts::none()) == Ok::<TensorInfoModel, ErrorModel>(t@),
            Err(e) => tensor_from(buf@, 0, TensorParts::none()) == Err::<TensorInfoModel, ErrorModel>(
                e@,
            ),
        },
{
    let known: [u32; 5] = [1, 4, 7, 8, 9];
    assert(known@ == tensor_known());
    let mut c = Cursor::new(buf);
    let mut name = String::new();
    let mut dims: Vec<i64> = Vec::new();
    let mut data_type: i64 = 0;
    let mut listed: Vec<u64> = Vec::new();
    let mut raw_singles: Vec<u64> = Vec::new();
    let mut raw_doubles: Vec<u64> = Vec::new();
    while !c.eof()
        invariant
            c.data@ == buf@,
            buf@.len() + 8 <= usize::MAX,
            known@ == tensor_known(),
            tensor_from(buf@, 0, TensorParts::none()) == tensor_from(
                buf@,
                c.pos as nat,
                (TensorParts {
                    name: name@,
                    dims: dims@,
                    data_type,
                    listed: listed@,
                    singles: raw_singles@,
                    doubles: raw_doubles@,
                }),
            ),
        decreases left(buf@, c.pos as nat),
    {
        proof {
            field_moves_on(buf@, c.pos as nat, tensor_known());
        }
        match c.next_field(known.as_slice()) {
            Err(e) => {
                return Err(e);
            },
            Ok(f) => match (f.number, f.payload) {
                (1, Payload::Len(b)) => match read_numbers(b, &mut dims) {
                    Ok(_) => {},
                    Err(e) => {
                        return Err(e);
                    },
                },
                (1, Payload::Varint(v)) => {
                    dims.push(v as i64);
                },
                (2, Payload::Varint(v)) => {
                    data_type = v as i64;
                },
                (4, Payload::Len(b)) => {
                    append_values(&mut listed, read_singles(b));
                },
                (4, Payload::Fixed32(b)) => {
                    if b.len() < 4 {
                        return Err(frontend_failure("TensorProto.float_data 越界"));
                    }
                    assert(b@.len() == 4);
                    assert(b@.subrange(0, 4) == b@);
                    listed.push(read_single(b, 0));
                },
                (7, Payload::Len(b)) => {
                    append_values(&mut listed, read_doubles(b));
                },
                (7, Payload::Fixed64(b)) => {
                    if b.len() < 8 {
                        return Err(frontend_failure("TensorProto.double_data 越界"));
                    }
                    assert(b@.len() == 8);
                    assert(b@.subrange(0, 8) == b@);
                    listed.push(read_le(b, 0, 8));
                },
                (8, Payload::Len(b)) => match read_string_field(b) {
                    Ok(s) => {
                        name = s;
                    },
                    Err(e) => {
                        return Err(e);
                    },
                },
                (9, Payload::Len(b)) => {
                    let v = read_singles(b);
                    if v.len() > 0 {
                        raw_singles = v;
                    }
                    let w = read_doubles(b);
                    if w.len() > 0 {
                        raw_doubles = w;
                    }
                },
                _ => {},
            },
        }
    }
    let raw = if data_type == 1 {
        raw_singles
    } else {
        raw_doubles
    };
    let values: Vec<u64> = if data_type != 1 && data_type != 11 {
        Vec::new()
    } else if raw.len() > 0 {
        raw
    } else {
        listed
    };
    Ok(TensorInfo { name, dims, data_type, values })
}

/// The name in a value description whose name so far is `name`, from `i` on.
pub open spec fn value_name_from(d: Seq<u8>, i: nat, name: Option<Seq<char>>) -> Parsed<
    Option<Seq<char>>,
>
    decreases left(d, i),
{
    if i >= d.len() {
        Ok(name)
    } else {
        proof {
            field_moves_on(d, i, seq![1u32]);
        }
        match field_at(d, i, seq![1u32]) {
            Ok((1, PayloadModel::Len(b), j)) => match text_field(b) {
                Ok(s) => value_name_from(d, j, Some(s)),
                Err(e) => Err(e),
            },
            Ok((_, _, j)) => value_name_from(d, j, name),
            Err(e) => Err(e),
        }
    }
}

/// The text of an optional string.
pub open spec fn optional_text(s: Option<String>) -> Option<Seq<char>> {
    match s {
        Some(t) => Some(t@),
        None => None,
    }
}

fn parse_value_info_name(buf: &[u8]) -> (r: Result<Option<String>>)
    requires
        buf@.len() + 8 <= usize::MAX,
    ensures
        match r {
            Ok(n) => value_name_from(buf@, 0, None) == Ok::<Option<Seq<char>>, ErrorModel>(
                optional_text(n),
            ),
            Err(e) => value_name_from(buf@, 0, None) == Err::<Option<Seq<char>>, ErrorModel>(e@),
        },
{
    let known: [u32; 1] = [1];
    assert(known@ == seq![1u32]);
    let mut c = Cursor::new(buf);
    let mut name: Option<String> = None;
    while !c.eof()
        invariant
            c.data@ == buf@,
            buf@.len() + 8 <= usize::MAX,
            known@ == seq![1u32],
            value_name_from(buf@, 0, None) == value_name_from(
                buf@,
                c.pos as nat,
                optional_text(name),
            ),
        decreases left(buf@, c.pos as nat),
    {
        proof {
            field_moves_on(buf@, c.pos as nat, seq![1u32]);
        }
        match c.next_field(known.as_slice()) {
            Err(e) => {
                return Err(e);
            },
            Ok(f) => match (f.number, f.payload) {
                (1, Payload::Len(b)) => match read_string_field(b) {
                    Ok(s) => {
                        name = Some(s);
                    },
                    Err(e) => {
                        return Err(e);
                    },
                },
                _ => {},
            },
        }
    }
    Ok(name)
}

/// A node of a model.
#[derive(Debug)]
pub struct NodeInfo {
    pub op_type: String,
    pub inputs: Vec<String>,
    pub outputs: Vec<String>,
    pub attributes: Vec<AttrInfo>,
}

/// What a node says.
#[verifier::ext_equal]
pub struct NodeInfoModel {
    pub op_type: Seq<char>,
    pub inputs: Seq<Seq<char>>,
    pub outputs: Seq<Seq<char>>,
    pub attributes: Seq<AttrInfoModel>,
}

impl View for NodeInfo {
    type V = NodeInfoModel;

    open spec fn view(&self) -> NodeInfoModel {
        NodeInfoModel {
            op_type: self.op_type@,
            inputs: texts(self.inputs@),
            outputs: texts(self.outputs@),
            attributes: attr_models(self.attributes@),
        }
    }
}

/// What the nodes of a sequence say.
pub open spec fn node_models(s: Seq<NodeInfo>) -> Seq<NodeInfoModel> {
    Seq::new(s.len(), |i: int| s[i]@)
}

impl NodeInfoModel {
    /// Nothing read yet.
    pub open spec fn none() -> NodeInfoModel {
        NodeInfoModel {
            op_type: Seq::empty(),
            inputs: Seq::empty(),
            outputs: Seq::empty(),
            attributes: Seq::empty(),
        }
    }

    /// With one more field.
    pub open spec fn with(self, n: u32, p: PayloadModel) -> Parsed<NodeInfoModel> {
        match (n, p) {
            (1, PayloadModel::Len(b)) => match text_field(b) {
                Ok(s) => Ok(NodeInfoModel { inputs: self.inputs.push(s), ..self }),
                Err(e) => Err(e),
            },
            (2, PayloadModel::Len(b)) => match text_field(b) {
                Ok(s) => Ok(NodeInfoModel { outputs: self.outputs.push(s), ..self }),
                Err(e) => Err(e),
            },
            (3, PayloadModel::Len(b)) => match text_field(b) {
                Ok(s) => Ok(NodeInfoModel { op_type: s, ..self }),
                Err(e) => Err(e),
            },
            (5, PayloadModel::Len(b)) => match attr_from(b, 0, AttrParts::none()) {
                Ok(a) => Ok(NodeInfoModel { attributes: self.attributes.push(a), ..self }),
                Err(e) => Err(e),
            },
            _ => Ok(self),
        }
    }
}

/// The fields under which a node takes byte sequences.
pub open spec fn node_known() -> Seq<u32> {
    seq![1, 2, 3, 5]
}

/// The node whose part `x` was read, from `i` on.
pub open spec fn node_from(d: Seq<u8>, i: nat, x: NodeInfoModel) -> Parsed<NodeInfoModel>
    decreases left(d, i),
{
    if i >= d.len() {
        Ok(x)
    } else {
        proof {
            field_moves_on(d, i, node_known());
        }
        match field_at(d, i, node_known()) {
            Ok((n, p, j)) => match x.with(n, p) {
                Ok(y) => node_from(d, j, y),
                Err(e) => Err(e),
            },
            Err(e) => Err(e),
        }
    }
}

fn push_text(out: &mut Vec<String>, s: String)
    ensures
        texts(final(out)@) == texts(old(out)@).push(s@),
        final(out)@.len() == old(out)@.len() + 1,
{
    out.push(s);
    assert(texts(out@) == texts(old(out)@).push(s@));
}

fn parse_node(buf: &[u8]) -> (r: Result<NodeInfo>)
    requires
        buf@.len() + 8 <= usize::MAX,
    ensures
        match r {
            Ok(n) => node_from(buf@, 0, NodeInfoModel::none()) == Ok::<NodeInfoModel, ErrorModel>(n@)
                && n.attributes@.len() <= buf@.len(),
            Err(e) => node_from(buf@, 0, NodeInfoModel::none()) == Err::<NodeInfoModel, ErrorModel>(
                e@,
            ),
        },
{
    let known: [u32; 4] = [1, 2, 3, 5];
    assert(known@ == node_known());
    let mut c = Cursor::new(buf);
    let mut n = NodeInfo {
        op_type: String::new(),
        inputs: Vec::new(),
        outputs: Vec::new(),
        attributes: Vec::new(),
    };
    assert(n@ == NodeInfoModel::none());
    while !c.eof()
        invariant
            c.data@ == buf@,
            buf@.len() + 8 <= usize::MAX,
            known@ == node_known(),
            n.attributes@.len() <= c.pos,
            n.attributes@.len() <= buf@.len(),
            node_from(buf@, 0, NodeInfoModel::none()) == node_from(buf@, c.pos as nat, n@),
        decreases left(buf@, c.pos as nat),
    {
        proof {
            field_moves_on(buf@, c.pos as nat, node_known());
        }
        let ghost before = n@;
        match c.next_field(known.as_slice()) {
            Err(e) => {
                return Err(e);
            },
            Ok(f) => match (f.number, f.payload) {
                (1, Payload::Len(b)) => match read_string_field(b) {
                    Ok(s) => {
                        push_text(&mut n.inputs, s);
                    },
                    Err(e) => {
                        return Err(e);
                    },
                },
                (2, Payload::Len(b)) => match read_string_field(b) {
                    Ok(s) => {
                        push_text(&mut n.outputs, s);
                    },
                    Err(e) => {
                        return Err(e);
                    },
                },
                (3, Payload::Len(b)) => match read_string_field(b) {
                    Ok(s) => {
                        n.op_type = s;
                    },
                    Err(e) => {
                        return Err(e);
                    },
                },
                (5, Payload::Len(b)) => match parse_attribute(b) {
                    Ok(a) => {
                        n.attributes.push(a);
                        assert(attr_models(n.attributes@) == before.attributes.push(a@));
                    },
                    Err(e) => {
                        return Err(e);
                    },
                },
                _ => {},
            },
        }
    }
    Ok(n)
}

/// A model: its graph.
#[derive(Debug)]
pub struct ModelInfo {
    pub graph_name: Option<String>,
    pub nodes: Vec<NodeInfo>,
    pub inputs: Vec<String>,
    pub outputs: Vec<String>,
    pub initializers: Vec<TensorInfo>,
}

/// What a model says.
#[verifier::ext_equal]
pub struct ModelInfoModel {
    pub graph_name: Option<Seq<char>>,
    pub nodes: Seq<NodeInfoModel>,
    pub inputs: Seq<Seq<char>>,
    pub outputs: Seq<Seq<char>>,
    pub initializers: Seq<TensorInfoModel>,
}

impl View for ModelInfo {
    type V = ModelInfoModel;

    open spec fn view(&self) -> ModelInfoModel {
        ModelInfoModel {
            graph_name: optional_text(self.graph_name),
            nodes: node_models(self.nodes@),
            inputs: texts(self.inputs@),
            outputs: texts(self.outputs@),
            initializers: tensor_models(self.initializers@),
        }
    }
}

impl ModelInfoModel {
    /// Nothing read yet.
    pub open spec fn none() -> ModelInfoModel {
        ModelInfoModel {
            graph_name: None,
            nodes: Seq::empty(),
            inputs: Seq::empty(),
            outputs: Seq::empty(),
            initializers: Seq::empty(),
        }
    }

    /// With one more field of the graph. Tensors without a name are dropped,
    /// and so are inputs and outputs without one.
    pub open spec fn with(self, n: u32, p: PayloadModel) -> Parsed<ModelInfoModel> {
        match (n, p) {
            (1, PayloadModel::Len(b)) => match node_from(b, 0, NodeInfoModel::none()) {
                Ok(x) => Ok(ModelInfoModel { nodes: self.nodes.push(x), ..self }),
                Err(e) => Err(e),
            },
            (2, PayloadModel::Len(b)) => match text_field(b) {
                Ok(s) => Ok(ModelInfoModel { graph_name: Some(s), ..self }),
                Err(e) => Err(e),
            },
            (5, PayloadModel::Len(b)) => match tensor_from(b, 0, TensorParts::none()) {
                Ok(t) => if t.name.len() > 0 {
                    Ok(ModelInfoModel { initializers: self.initializers.push(t), ..self })
                } else {
                    Ok(self)
                },
                Err(e) => Err(e),
            },
            (11, PayloadModel::Len(b)) => match value_name_from(b, 0, None) {
                Ok(Some(s)) => Ok(ModelInfoModel { inputs: self.inputs.push(s), ..self }),
                Ok(None) => Ok(self),
                Err(e) => Err(e),
            },
            (12, PayloadModel::Len(b)) => match value_name_from(b, 0, None) {
                Ok(Some(s)) => Ok(ModelInfoModel { outputs: self.outputs.push(s), ..self }),
                Ok(None) => Ok(self),
                Err(e) => Err(e),
            },
            _ => Ok(self),
        }
    }
}

/// The fields under which a graph takes byte sequences.
pub open spec fn graph_known() -> Seq<u32> {
    seq![1, 2, 5, 11, 12]
}

/// The graph whose part `m` was read, from `i` on.
pub open spec fn graph_from(d: Seq<u8>, i: nat, m: ModelInfoModel) -> Parsed<ModelInfoModel>
    decreases left(d, i),
{
    if i >= d.len() {
        Ok(m)
    } else {
        proof {
            field_moves_on(d, i, graph_known());
        }
        match field_at(d, i, graph_known()) {
            Ok((n, p, j)) => match m.with(n, p) {
                Ok(x) => graph_from(d, j, x),
                Err(e) => Err(e),
            },
            Err(e) => Err(e),
        }
    }
}

/// Every attribute list is shorter than `n`.
pub open spec fn attributes_below(nodes: Seq<NodeInfo>, n: nat) -> bool {
    forall|i: int| 0 <= i < nodes.len() ==> (#[trigger] nodes[i]).attributes@.len() <= n
}

fn parse_graph(buf: &[u8]) -> (r: Result<ModelInfo>)
    requires
        buf@.len() + 8 <= usize::MAX,
    ensures
        match r {
            Ok(m) => graph_from(buf@, 0, ModelInfoModel::none()) == Ok::<ModelInfoModel, ErrorModel>(
                m@,
            ) && m.nodes@.len() + m.initializers@.len() <= buf@.len() && attributes_below(
                m.nodes@,
                buf@.len(),
            ),
            Err(e) => graph_from(buf@, 0, ModelInfoModel::none()) == Err::<
                ModelInfoModel,
                ErrorModel,
            >(e@),
        },
{
    let known: [u32; 5] = [1, 2, 5, 11, 12];
    assert(known@ == graph_known());
    let mut c = Cursor::new(buf);
    let mut m = ModelInfo {
        graph_name: None,
        nodes: Vec::new(),
        inputs: Vec::new(),
        outputs: Vec::new(),
        initializers: Vec::new(),
    };
    assert(m@ == ModelInfoModel::none());
    while !c.eof()
        invariant
            c.data@ == buf@,
            buf@.len() + 8 <= usize::MAX,
            known@ == graph_known(),
            m.nodes@.len() + m.initializers@.len() <= c.pos,
            m.nodes@.len() + m.initializers@.len() <= buf@.len(),
            attributes_below(m.nodes@, buf@.len()),
            graph_from(buf@, 0, ModelInfoModel::none()) == graph_from(buf@, c.pos as nat, m@),
        decreases left(buf@, c.pos as nat),
    {
        proof {
            field_moves_on(buf@, c.pos as nat, graph_known());
        }
        let ghost before = m@;
        match c.next_field(known.as_slice()) {
            Err(e) => {
                return Err(e);
            },
            Ok(f) => match (f.number, f.payload) {
                (1, Payload::Len(b)) => match parse_node(b) {
                    Ok(x) => {
                        m.nodes.push(x);
                        assert(node_models(m.nodes@) == before.nodes.push(x@));
                    },
                    Err(e) => {
                        return Err(e);
                    },
                },
                (2, Payload::Len(b)) => match read_string_field(b) {
                    Ok(s) => {
                        m.graph_name = Some(s);
                    },
                    Err(e) => {
                        return Err(e);
                    },
                },
                (5, Payload::Len(b)) => match parse_tensor(b) {
                    Ok(t) => {
                        if !t.name.as_str().is_empty() {
                            m.initializers.push(t);
                            assert(tensor_models(m.initializers@) == before.initializers.push(t@));
                        }
                    },
                    Err(e) => {
                        return Err(e);
                    },
                },
                (11, Payload::Len(b)) => match parse_value_info_name(b) {
                    Ok(Some(s)) => {
                        push_text(&mut m.inputs, s);
                    },
                    Ok(None) => {},
                    Err(e) => {
                        return Err(e);
                    },
                },
                (12, Payload::Len(b)) => match parse_value_info_name(b) {
                    Ok(Some(s)) => {
                        push_text(&mut m.outputs, s);
                    },
                    Ok(None) => {},
                    Err(e) => {
                        return Err(e);
                    },
                },
                _ => {},
            },
        }
    }
    Ok(m)
}

/// The model whose part `m` was read, from `i` on; a later graph replaces an
/// earlier one.
pub open spec fn model_from(d: Seq<u8>, i: nat, m: ModelInfoModel) -> Parsed<ModelInfoModel>
    decreases left(d, i),
{
    if i >= d.len() {
        Ok(m)
    } else {
        proof {
            field_moves_on(d, i, seq![7u32]);
        }
        match field_at(d, i, seq![7u32]) {
            Ok((7, PayloadModel::Len(b), j)) => match graph_from(b, 0, ModelInfoModel::none()) {
                Ok(x) => model_from(d, j, x),
                Err(e) => Err(e),
            },
            Ok((_, _, j)) => model_from(d, j, m),
            Err(e) => Err(e),
        }
    }
}

/// The model that a byte sequence holds, or the error.
pub open spec fn model_of(d: Seq<u8>) -> Parsed<ModelInfoModel> {
    model_from(d, 0, ModelInfoModel::none())
}

/// Reads a model.
pub fn parse_model(bytes: &[u8]) -> (r: Result<ModelInfo>)
    requires
        bytes@.len() + 8 <= usize::MAX,
    ensures
        match r {
            Ok(m) => model_of(bytes@) == Ok::<ModelInfoModel, ErrorModel>(m@) && m.nodes@.len()
                + m.initializers@.len() <= bytes@.len() && attributes_below(m.nodes@, bytes@.len()),
            Err(e) => model_of(bytes@) == Err::<ModelInfoModel, ErrorModel>(e@),
        },
{
    let known: [u32; 1] = [7];
    assert(known@ == seq![7u32]);
    let mut c = Cursor::new(bytes);
    let mut m = ModelInfo {
        graph_name: None,
        nodes: Vec::new(),
        inputs: Vec::new(),
        outputs: Vec::new(),
        initializers: Vec::new(),
    };
    assert(m@ == ModelInfoModel::none());
    while !c.eof()
        invariant
            c.data@ == bytes@,
            bytes@.len() + 8 <= usize::MAX,
            known@ == seq![7u32],
            m.nodes@.len() + m.initializers@.len() <= bytes@.len(),
            attributes_below(m.nodes@, bytes@.len()),
            model_of(bytes@) == model_from(bytes@, c.pos as nat, m@),
        decreases left(bytes@, c.pos as nat),
    {
        proof {
            field_moves_on(bytes@, c.pos as nat, seq![7u32]);
        }
        match c.next_field(known.as_slice()) {
            Err(e) => {
                return Err(e);
            },
            Ok(f) => match (f.number, f.payload) {
                (7, Payload::Len(b)) => match parse_graph(b) {
                    Ok(x) => {
                        m = x;
                    },
                    Err(e) => {
                        return Err(e);
                    },
                },
                _ => {},
            },
        }
    }
    Ok(m)
}

} // verus!
