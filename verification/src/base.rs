//! Errors, identifiers, the type system and the operator kinds of the graph.

use vstd::prelude::*;
use crate::text::{dec, push_dec};

verus! {

/// Which stage of the compiler an error comes from.
#[derive(Debug, Clone, Copy, PartialEq, Eq, Structural)]
pub enum ErrorKind {
    Ir,
    Frontend,
    Opt,
    Backend,
    Isel,
    Lisp,
    Other,
}

/// An error of one of the stages, with its text.
#[derive(Debug)]
pub enum NeutronError {
    Ir(String),
    Frontend(String),
    Opt(String),
    Backend(String),
    Isel(String),
    Lisp(String),
    Other(String),
}

/// What an error says: its stage and its text.
pub type ErrorModel = (ErrorKind, Seq<char>);

/// The heading under which the errors of a stage are reported.
pub open spec fn heading(kind: ErrorKind) -> Seq<char> {
    match kind {
        ErrorKind::Ir => "IR 错误: "@,
        ErrorKind::Frontend => "前端错误: "@,
        ErrorKind::Opt => "优化错误: "@,
        ErrorKind::Backend => "后端/lowering 错误: "@,
        ErrorKind::Isel => "指令选择错误: "@,
        ErrorKind::Lisp => "Lisp 解释器错误: "@,
        ErrorKind::Other => "其他: "@,
    }
}

impl View for NeutronError {
    type V = ErrorModel;

    open spec fn view(&self) -> ErrorModel {
        match self {
            NeutronError::Ir(s) => (ErrorKind::Ir, s@),
            NeutronError::Frontend(s) => (ErrorKind::Frontend, s@),
            NeutronError::Opt(s) => (ErrorKind::Opt, s@),
            NeutronError::Backend(s) => (ErrorKind::Backend, s@),
            NeutronError::Isel(s) => (ErrorKind::Isel, s@),
            NeutronError::Lisp(s) => (ErrorKind::Lisp, s@),
            NeutronError::Other(s) => (ErrorKind::Other, s@),
        }
    }
}

impl NeutronError {
    /// The text under which the error is reported: its heading, then its own text.
    pub fn message(&self) -> (r: String)
        ensures
            r@ == heading(self@.0) + self@.1,
    {
        let (head, body): (&str, &String) = match self {
            NeutronError::Ir(s) => ("IR 错误: ", s),
            NeutronError::Frontend(s) => ("前端错误: ", s),
            NeutronError::Opt(s) => ("优化错误: ", s),
            NeutronError::Backend(s) => ("后端/lowering 错误: ", s),
            NeutronError::Isel(s) => ("指令选择错误: ", s),
            NeutronError::Lisp(s) => ("Lisp 解释器错误: ", s),
            NeutronError::Other(s) => ("其他: ", s),
        };
        let mut r = String::from_str(head);
        r.append(body.as_str());
        r
    }
}

pub type Result<T> = std::result::Result<T, NeutronError>;

pub type NodeId = u32;

pub type ValueId = u32;

/// `head` followed by the decimal notation of `n`.
pub(crate) fn numbered(head: &str, n: u64) -> (r: String)
    ensures
        r@ == head@ + dec(n as nat),
{
    let mut s = String::from_str(head);
    push_dec(&mut s, n);
    s
}

/// An element type.
#[derive(Debug, Clone, Copy, PartialEq, Eq, Hash, Structural)]
pub enum DType {
    F32,
    F16,
    BF16,
    I64,
    I32,
    Bool,
}

impl DType {
    /// The number that stands for the element type in packed headers.
    pub open spec fn tag(self) -> u8 {
        match self {
            DType::F32 => 0,
            DType::F16 => 1,
            DType::BF16 => 2,
            DType::I64 => 3,
            DType::I32 => 4,
            DType::Bool => 5,
        }
    }

    pub fn code(self) -> (r: u8)
        ensures
            r == self.tag(),
    {
        match self {
            DType::F32 => 0,
            DType::F16 => 1,
            DType::BF16 => 2,
            DType::I64 => 3,
            DType::I32 => 4,
            DType::Bool => 5,
        }
    }

    pub fn from_u8(v: u8) -> (r: Result<Self>)
        ensures
            match r {
                Ok(d) => d.tag() == v,
                Err(e) => (forall|d: DType| d.tag() != v) && e@ == (
                    ErrorKind::Ir,
                    "未知 dtype tag: "@ + dec(v as nat),
                ),
            },
    {
        match v {
            0 => Ok(DType::F32),
            1 => Ok(DType::F16),
            2 => Ok(DType::BF16),
            3 => Ok(DType::I64),
            4 => Ok(DType::I32),
            5 => Ok(DType::Bool),
            _ => Err(NeutronError::Ir(numbered("未知 dtype tag: ", v as u64))),
        }
    }
}

/// An element type together with whether it is that of a tensor.
#[derive(Debug, Clone, Copy, PartialEq, Eq, Hash, Structural)]
pub enum TypeTag {
    ScalarF32,
    ScalarF16,
    ScalarBF16,
    ScalarI64,
    ScalarI32,
    ScalarBool,
    TensorF32,
    TensorF16,
    TensorBF16,
    TensorI64,
    TensorI32,
    TensorBool,
}

/// The hexadecimal digit of a value below sixteen, in lower case.
pub open spec fn hex_digit(d: nat) -> char {
    if d < 10 {
        (48 + d) as char
    } else {
        (87 + d) as char
    }
}

/// A byte in hexadecimal notation with the prefix `0x`, without leading zeros.
pub open spec fn hex_byte(v: nat) -> Seq<char> {
    if v < 16 {
        seq!['0', 'x', hex_digit(v)]
    } else {
        seq!['0', 'x', hex_digit(v / 16), hex_digit(v % 16)]
    }
}

fn hex_char(d: u8) -> (r: char)
    requires
        d < 16,
    ensures
        r == hex_digit(d as nat),
{
    if d < 10 {
        (48 + d) as char
    } else {
        (87 + d) as char
    }
}

impl TypeTag {
    /// The element type that the tag names.
    pub open spec fn elem(self) -> DType {
        match self {
            TypeTag::ScalarF32 | TypeTag::TensorF32 => DType::F32,
            TypeTag::ScalarF16 | TypeTag::TensorF16 => DType::F16,
            TypeTag::ScalarBF16 | TypeTag::TensorBF16 => DType::BF16,
            TypeTag::ScalarI64 | TypeTag::TensorI64 => DType::I64,
            TypeTag::ScalarI32 | TypeTag::TensorI32 => DType::I32,
            TypeTag::ScalarBool | TypeTag::TensorBool => DType::Bool,
        }
    }

    /// Whether the tag is that of a tensor.
    pub open spec fn tensor(self) -> bool {
        match self {
            TypeTag::TensorF32
            | TypeTag::TensorF16
            | TypeTag::TensorBF16
            | TypeTag::TensorI64
            | TypeTag::TensorI32
            | TypeTag::TensorBool => true,
            _ => false,
        }
    }

    /// The number that stands for the tag in packed headers: that of the
    /// element type, with the top bit set for tensors.
    pub open spec fn tag(self) -> u8 {
        if self.tensor() {
            (0x80 + self.elem().tag()) as u8
        } else {
            self.elem().tag()
        }
    }

    /// The tag with the given element type.
    pub open spec fn of(dt: DType, is_tensor: bool) -> TypeTag {
        match (dt, is_tensor) {
            (DType::F32, false) => TypeTag::ScalarF32,
            (DType::F16, false) => TypeTag::ScalarF16,
            (DType::BF16, false) => TypeTag::ScalarBF16,
            (DType::I64, false) => TypeTag::ScalarI64,
            (DType::I32, false) => TypeTag::ScalarI32,
            (DType::Bool, false) => TypeTag::ScalarBool,
            (DType::F32, true) => TypeTag::TensorF32,
            (DType::F16, true) => TypeTag::TensorF16,
            (DType::BF16, true) => TypeTag::TensorBF16,
            (DType::I64, true) => TypeTag::TensorI64,
            (DType::I32, true) => TypeTag::TensorI32,
            (DType::Bool, true) => TypeTag::TensorBool,
        }
    }

    /// The tag that a number stands for, where it stands for one.
    pub open spec fn of_tag(v: u8) -> Option<TypeTag> {
        if exists|t: TypeTag| t.tag() == v {
            Some(choose|t: TypeTag| t.tag() == v)
        } else {
            None
        }
    }

    pub fn code(self) -> (r: u8)
        ensures
            r == self.tag(),
    {
        if self.is_tensor() {
            0x80 + self.dtype().code()
        } else {
            self.dtype().code()
        }
    }

    pub fn from_u8(v: u8) -> (r: Result<Self>)
        ensures
            match r {
                Ok(t) => t.tag() == v && TypeTag::of_tag(v) == Some(t),
                Err(e) => TypeTag::of_tag(v) is None && e@ == unknown_type(v),
            },
    {
        let r = match v {
            0x00 => TypeTag::ScalarF32,
            0x01 => TypeTag::ScalarF16,
            0x02 => TypeTag::ScalarBF16,
            0x03 => TypeTag::ScalarI64,
            0x04 => TypeTag::ScalarI32,
            0x05 => TypeTag::ScalarBool,
            0x80 => TypeTag::TensorF32,
            0x81 => TypeTag::TensorF16,
            0x82 => TypeTag::TensorBF16,
            0x83 => TypeTag::TensorI64,
            0x84 => TypeTag::TensorI32,
            0x85 => TypeTag::TensorBool,
            _ => {
                let mut s = String::from_str("未知 type tag: ");
                s.push('0');
                s.push('x');
                if v >= 16 {
                    s.push(hex_char(v / 16));
                }
                s.push(hex_char(v % 16));
                assert(s@ == "未知 type tag: "@ + hex_byte(v as nat));
                return Err(NeutronError::Ir(s));
            },
        };
        proof {
            type_tag_round_trip(r, TypeTag::of_tag(v)->0);
        }
        Ok(r)
    }

    pub fn is_tensor(&self) -> (r: bool)
        ensures
            r == self.tensor(),
    {
        match self {
            TypeTag::TensorF32
            | TypeTag::TensorF16
            | TypeTag::TensorBF16
            | TypeTag::TensorI64
            | TypeTag::TensorI32
            | TypeTag::TensorBool => true,
            _ => false,
        }
    }

    pub fn dtype(&self) -> (r: DType)
        ensures
            r == self.elem(),
    {
        match self {
            TypeTag::ScalarF32 | TypeTag::TensorF32 => DType::F32,
            TypeTag::ScalarF16 | TypeTag::TensorF16 => DType::F16,
            TypeTag::ScalarBF16 | TypeTag::TensorBF16 => DType::BF16,
            TypeTag::ScalarI64 | TypeTag::TensorI64 => DType::I64,
            TypeTag::ScalarI32 | TypeTag::TensorI32 => DType::I32,
            TypeTag::ScalarBool | TypeTag::TensorBool => DType::Bool,
        }
    }

    pub fn from_dtype(dt: DType, is_tensor: bool) -> (r: Self)
        ensures
            r == TypeTag::of(dt, is_tensor),
            r.elem() == dt,
            r.tensor() == is_tensor,
    {
        match (dt, is_tensor) {
            (DType::F32, false) => TypeTag::ScalarF32,
            (DType::F16, false) => TypeTag::ScalarF16,
            (DType::BF16, false) => TypeTag::ScalarBF16,
            (DType::I64, false) => TypeTag::ScalarI64,
            (DType::I32, false) => TypeTag::ScalarI32,
            (DType::Bool, false) => TypeTag::ScalarBool,
            (DType::F32, true) => TypeTag::TensorF32,
            (DType::F16, true) => TypeTag::TensorF16,
            (DType::BF16, true) => TypeTag::TensorBF16,
            (DType::I64, true) => TypeTag::TensorI64,
            (DType::I32, true) => TypeTag::TensorI32,
            (DType::Bool, true) => TypeTag::TensorBool,
        }
    }
}

/// A static type: a scalar, or a tensor with its shape.
#[derive(Debug, PartialEq, Eq, Hash)]
pub enum Type {
    Scalar(DType),
    Tensor { dtype: DType, dims: Vec<i64> },
}

/// What a type says: its element type and, for a tensor, its shape.
pub struct TypeModel {
    pub elem: DType,
    pub dims: Option<Seq<i64>>,
}

impl TypeModel {
    /// The shape; that of a scalar is empty.
    pub open spec fn shape(self) -> Seq<i64> {
        match self.dims {
            Some(d) => d,
            None => Seq::empty(),
        }
    }

    /// The tag of the type.
    pub open spec fn type_tag(self) -> TypeTag {
        TypeTag::of(self.elem, self.dims is Some)
    }
}

impl Clone for Type {
    fn clone(&self) -> (r: Self)
        ensures
            r@ == self@,
    {
        match self {
            Type::Scalar(d) => Type::Scalar(*d),
            Type::Tensor { dtype, dims } => {
                let copy: Vec<i64> = dims.clone();
                assert(copy@ == dims@);
                Type::Tensor { dtype: *dtype, dims: copy }
            },
        }
    }
}

impl Type {
    pub open spec fn view(&self) -> TypeModel {
        match self {
            Type::Scalar(d) => TypeModel { elem: *d, dims: None },
            Type::Tensor { dtype, dims } => TypeModel { elem: *dtype, dims: Some(dims@) },
        }
    }

    pub fn to_tag(&self) -> (r: TypeTag)
        ensures
            r == self@.type_tag(),
    {
        match self {
            Type::Scalar(dt) => TypeTag::from_dtype(*dt, false),
            Type::Tensor { dtype, .. } => TypeTag::from_dtype(*dtype, true),
        }
    }
}

/// The kind of a node.
#[derive(Debug, Clone, Copy, PartialEq, Eq, Hash, Structural)]
pub enum OpKind {
    Add,
    Sub,
    Mul,
    Div,
    MatMul,
    Relu,
    Gelu,
    Sigmoid,
    Tanh,
    Softmax,
    LayerNorm,
    Conv,
    Pool,
    Reshape,
    Transpose,
    Concat,
    Slice,
    Constant,
    Placeholder,
    Return,
    Sqrt,
    Exp,
    Pow,
    ReduceSum,
    ReduceMean,
    ReduceMax,
    Rsqrt,
    Reciprocal,
    Abs,
    Log,
    Fused,
    Custom,
}

impl OpKind {
    /// The number that stands for the kind in packed headers.
    pub open spec fn tag(self) -> u8 {
        match self {
            OpKind::Add => 0,
            OpKind::Sub => 1,
            OpKind::Mul => 2,
            OpKind::Div => 3,
            OpKind::MatMul => 4,
            OpKind::Relu => 5,
            OpKind::Gelu => 6,
            OpKind::Sigmoid => 7,
            OpKind::Tanh => 8,
            OpKind::Softmax => 9,
            OpKind::LayerNorm => 10,
            OpKind::Conv => 11,
            OpKind::Pool => 12,
            OpKind::Reshape => 13,
            OpKind::Transpose => 14,
            OpKind::Concat => 15,
            OpKind::Slice => 16,
            OpKind::Constant => 17,
            OpKind::Placeholder => 18,
            OpKind::Return => 19,
            OpKind::Sqrt => 20,
            OpKind::Exp => 21,
            OpKind::Pow => 22,
            OpKind::ReduceSum => 23,
            OpKind::ReduceMean => 24,
            OpKind::ReduceMax => 25,
            OpKind::Rsqrt => 26,
            OpKind::Reciprocal => 27,
            OpKind::Abs => 28,
            OpKind::Log => 29,
            OpKind::Fused => 30,
            OpKind::Custom => 64,
        }
    }

    /// The kind that a number stands for, where it stands for one.
    pub open spec fn of_tag(v: u8) -> Option<OpKind> {
        if exists|k: OpKind| k.tag() == v {
            Some(choose|k: OpKind| k.tag() == v)
        } else {
            None
        }
    }

    /// The name of the kind, as it is spelt above.
    pub open spec fn spelling(self) -> Seq<char> {
        match self {
            OpKind::Add => "Add"@,
            OpKind::Sub => "Sub"@,
            OpKind::Mul => "Mul"@,
            OpKind::Div => "Div"@,
            OpKind::MatMul => "MatMul"@,
            OpKind::Relu => "Relu"@,
            OpKind::Gelu => "Gelu"@,
            OpKind::Sigmoid => "Sigmoid"@,
            OpKind::Tanh => "Tanh"@,
            OpKind::Softmax => "Softmax"@,
            OpKind::LayerNorm => "LayerNorm"@,
            OpKind::Conv => "Conv"@,
            OpKind::Pool => "Pool"@,
            OpKind::Reshape => "Reshape"@,
            OpKind::Transpose => "Transpose"@,
            OpKind::Concat => "Concat"@,
            OpKind::Slice => "Slice"@,
            OpKind::Constant => "Constant"@,
            OpKind::Placeholder => "Placeholder"@,
            OpKind::Return => "Return"@,
            OpKind::Sqrt => "Sqrt"@,
            OpKind::Exp => "Exp"@,
            OpKind::Pow => "Pow"@,
            OpKind::ReduceSum => "ReduceSum"@,
            OpKind::ReduceMean => "ReduceMean"@,
            OpKind::ReduceMax => "ReduceMax"@,
            OpKind::Rsqrt => "Rsqrt"@,
            OpKind::Reciprocal => "Reciprocal"@,
            OpKind::Abs => "Abs"@,
            OpKind::Log => "Log"@,
            OpKind::Fused => "Fused"@,
            OpKind::Custom => "Custom"@,
        }
    }

    pub fn code(self) -> (r: u8)
        ensures
            r == self.tag(),
    {
        match self {
            OpKind::Add => 0,
            OpKind::Sub => 1,
            OpKind::Mul => 2,
            OpKind::Div => 3,
            OpKind::MatMul => 4,
            OpKind::Relu => 5,
            OpKind::Gelu => 6,
            OpKind::Sigmoid => 7,
            OpKind::Tanh => 8,
            OpKind::Softmax => 9,
            OpKind::LayerNorm => 10,
            OpKind::Conv => 11,
            OpKind::Pool => 12,
            OpKind::Reshape => 13,
            OpKind::Transpose => 14,
            OpKind::Concat => 15,
            OpKind::Slice => 16,
            OpKind::Constant => 17,
            OpKind::Placeholder => 18,
            OpKind::Return => 19,
            OpKind::Sqrt => 20,
            OpKind::Exp => 21,
            OpKind::Pow => 22,
            OpKind::ReduceSum => 23,
            OpKind::ReduceMean => 24,
            OpKind::ReduceMax => 25,
            OpKind::Rsqrt => 26,
            OpKind::Reciprocal => 27,
            OpKind::Abs => 28,
            OpKind::Log => 29,
            OpKind::Fused => 30,
            OpKind::Custom => 64,
        }
    }

    pub fn from_u8(v: u8) -> (r: Result<Self>)
        ensures
            match r {
                Ok(k) => k.tag() == v && OpKind::of_tag(v) == Some(k),
                Err(e) => OpKind::of_tag(v) is None && e@ == unknown_op(v),
            },
    {
        let r = match v {
            0 => OpKind::Add,
            1 => OpKind::Sub,
            2 => OpKind::Mul,
            3 => OpKind::Div,
            4 => OpKind::MatMul,
            5 => OpKind::Relu,
            6 => OpKind::Gelu,
            7 => OpKind::Sigmoid,
            8 => OpKind::Tanh,
            9 => OpKind::Softmax,
            10 => OpKind::LayerNorm,
            11 => OpKind::Conv,
            12 => OpKind::Pool,
            13 => OpKind::Reshape,
            14 => OpKind::Transpose,
            15 => OpKind::Concat,
            16 => OpKind::Slice,
            17 => OpKind::Constant,
            18 => OpKind::Placeholder,
            19 => OpKind::Return,
            20 => OpKind::Sqrt,
            21 => OpKind::Exp,
            22 => OpKind::Pow,
            23 => OpKind::ReduceSum,
            24 => OpKind::ReduceMean,
            25 => OpKind::ReduceMax,
            26 => OpKind::Rsqrt,
            27 => OpKind::Reciprocal,
            28 => OpKind::Abs,
            29 => OpKind::Log,
            30 => OpKind::Fused,
            64 => OpKind::Custom,
            _ => {
                return Err(NeutronError::Ir(numbered("未知 op tag: ", v as u64)));
            },
        };
        proof {
            op_tag_round_trip(r);
        }
        Ok(r)
    }

    pub fn name(self) -> (r: &'static str)
        ensures
            r@ == self.spelling(),
    {
        match self {
            OpKind::Add => "Add",
            OpKind::Sub => "Sub",
            OpKind::Mul => "Mul",
            OpKind::Div => "Div",
            OpKind::MatMul => "MatMul",
            OpKind::Relu => "Relu",
            OpKind::Gelu => "Gelu",
            OpKind::Sigmoid => "Sigmoid",
            OpKind::Tanh => "Tanh",
            OpKind::Softmax => "Softmax",
            OpKind::LayerNorm => "LayerNorm",
            OpKind::Conv => "Conv",
            OpKind::Pool => "Pool",
            OpKind::Reshape => "Reshape",
            OpKind::Transpose => "Transpose",
            OpKind::Concat => "Concat",
            OpKind::Slice => "Slice",
            OpKind::Constant => "Constant",
            OpKind::Placeholder => "Placeholder",
            OpKind::Return => "Return",
            OpKind::Sqrt => "Sqrt",
            OpKind::Exp => "Exp",
            OpKind::Pow => "Pow",
            OpKind::ReduceSum => "ReduceSum",
            OpKind::ReduceMean => "ReduceMean",
            OpKind::ReduceMax => "ReduceMax",
            OpKind::Rsqrt => "Rsqrt",
            OpKind::Reciprocal => "Reciprocal",
            OpKind::Abs => "Abs",
            OpKind::Log => "Log",
            OpKind::Fused => "Fused",
            OpKind::Custom => "Custom",
        }
    }
}

/// The error for a number that stands for no operator kind.
pub open spec fn unknown_op(v: u8) -> ErrorModel {
    (ErrorKind::Ir, "未知 op tag: "@ + dec(v as nat))
}

/// The error for a number that stands for no type.
pub open spec fn unknown_type(v: u8) -> ErrorModel {
    (ErrorKind::Ir, "未知 type tag: "@ + hex_byte(v as nat))
}

/// Different operator kinds have different numbers, so the number of a kind
/// stands for that kind and no other.
pub proof fn op_tag_round_trip(k: OpKind)
    ensures
        OpKind::of_tag(k.tag()) == Some(k),
        forall|j: OpKind| #[trigger] j.tag() == k.tag() ==> j == k,
{
    assert forall|j: OpKind| #[trigger] j.tag() == k.tag() implies j == k by {
        assert(j.tag() == k.tag());
    }
    assert(k.tag() == k.tag());
}

/// Different element types have different numbers.
pub proof fn dtype_tag_injective(a: DType, b: DType)
    requires
        a.tag() == b.tag(),
    ensures
        a == b,
{
}

/// A type tag is fixed by its number, and by its element type together with
/// whether it is that of a tensor.
pub proof fn type_tag_round_trip(a: TypeTag, b: TypeTag)
    ensures
        a.tag() == b.tag() ==> a == b,
        TypeTag::of(a.elem(), a.tensor()) == a,
        a.tensor() <==> a.tag() >= 0x80,
        a.elem().tag() == a.tag() % 0x80,
{
}

/// An attribute value, before it is packed. A float is held as the bits of
/// its double precision representation.
#[derive(Debug, Clone)]
pub enum Attr {
    Int(i64),
    Float(u64),
    Bool(bool),
    IntArray(Vec<i64>),
}

/// An operator with its operands, outside of a graph.
#[derive(Debug, Clone)]
pub struct Operation {
    pub kind: OpKind,
    pub inputs: Vec<ValueId>,
    pub outputs: Vec<ValueId>,
}

impl Operation {
    pub fn new(kind: OpKind) -> (r: Self)
        ensures
            r.kind == kind,
            r.inputs@ == Seq::<ValueId>::empty(),
            r.outputs@ == Seq::<ValueId>::empty(),
    {
        Operation { kind, inputs: Vec::new(), outputs: Vec::new() }
    }
}

/// A value identifier with an optional name.
#[derive(Debug, Clone)]
pub struct Value {
    pub id: ValueId,
    pub name: Option<String>,
}

} // verus!
