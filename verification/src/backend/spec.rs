//! What kernel sources are generated from: architectures, tensors, kernels and
//! how they are launched.

use vstd::prelude::*;
use crate::base::{DType, OpKind};
use crate::text::{dec, dec_int, push_dec, push_dec_int, texts};

verus! {

/// A processor that kernels are generated for.
#[derive(Debug, Clone, Copy, PartialEq, Eq, Structural)]
pub enum GpuArch {
    /// NVIDIA A100.
    Ampere80,
    /// NVIDIA H100.
    Hopper90,
    /// NVIDIA B200.
    Blackwell100,
    /// Apple M1.
    Apple6,
    /// Apple M2.
    Apple7,
    /// Apple M3.
    Apple8,
    Ascend910B1,
    Ascend910B3,
    /// For light inference.
    Ascend310P3,
}

impl GpuArch {
    /// Made by NVIDIA.
    pub open spec fn nvidia(self) -> bool {
        self == GpuArch::Ampere80 || self == GpuArch::Hopper90 || self == GpuArch::Blackwell100
    }

    /// Made by Apple.
    pub open spec fn apple(self) -> bool {
        self == GpuArch::Apple6 || self == GpuArch::Apple7 || self == GpuArch::Apple8
    }

    /// From Hopper on.
    pub open spec fn since_hopper(self) -> bool {
        self == GpuArch::Hopper90 || self == GpuArch::Blackwell100
    }

    /// With a unit for matrices besides the one for vectors.
    pub open spec fn cubic(self) -> bool {
        self == GpuArch::Ascend910B1 || self == GpuArch::Ascend910B3
    }

    /// The CUDA compute capability.
    pub open spec fn capability(self) -> (u32, u32) {
        match self {
            GpuArch::Hopper90 => (9, 0),
            GpuArch::Blackwell100 => (10, 0),
            _ => (8, 0),
        }
    }

    /// The shared memory, in kilobytes.
    pub open spec fn shared_kilobytes(self) -> u32 {
        match self {
            GpuArch::Ampere80 => 164,
            GpuArch::Hopper90 => 228,
            GpuArch::Blackwell100 => 228,
            GpuArch::Apple6 => 32,
            GpuArch::Apple7 => 32,
            GpuArch::Apple8 => 32,
            GpuArch::Ascend910B1 => 192,
            GpuArch::Ascend910B3 => 192,
            GpuArch::Ascend310P3 => 64,
        }
    }

    /// How the architecture is called.
    pub open spec fn label(self) -> Seq<char> {
        match self {
            GpuArch::Ampere80 => "Ampere SM80"@,
            GpuArch::Hopper90 => "Hopper SM90"@,
            GpuArch::Blackwell100 => "Blackwell SM100"@,
            GpuArch::Apple6 => "Apple M1"@,
            GpuArch::Apple7 => "Apple M2"@,
            GpuArch::Apple8 => "Apple M3"@,
            GpuArch::Ascend910B1 => "Ascend 910B1"@,
            GpuArch::Ascend910B3 => "Ascend 910B3"@,
            GpuArch::Ascend310P3 => "Ascend 310P3"@,
        }
    }

    /// The CUDA compute capability, major and minor; 8.0 for what is not from NVIDIA.
    pub fn sm_version(self) -> (r: (u32, u32))
        ensures
            r == self.capability(),
    {
        match self {
            GpuArch::Hopper90 => (9, 0),
            GpuArch::Blackwell100 => (10, 0),
            _ => (8, 0),
        }
    }

    /// The shared memory, in bytes.
    pub fn max_shared_mem(self) -> (r: usize)
        ensures
            r == self.shared_kilobytes() * 1024,
    {
        match self {
            GpuArch::Ampere80 => 164 * 1024,
            GpuArch::Hopper90 => 228 * 1024,
            GpuArch::Blackwell100 => 228 * 1024,
            GpuArch::Apple6 => 32 * 1024,
            GpuArch::Apple7 => 32 * 1024,
            GpuArch::Apple8 => 32 * 1024,
            GpuArch::Ascend910B1 => 192 * 1024,
            GpuArch::Ascend910B3 => 192 * 1024,
            GpuArch::Ascend310P3 => 64 * 1024,
        }
    }

    /// How many threads run in step.
    pub fn warp_size(self) -> (r: u32)
        ensures
            r == if self.nvidia() || self.apple() {
                32u32
            } else {
                64u32
            },
    {
        match self {
            GpuArch::Ampere80 | GpuArch::Hopper90 | GpuArch::Blackwell100 => 32,
            GpuArch::Apple6 | GpuArch::Apple7 | GpuArch::Apple8 => 32,
            GpuArch::Ascend910B1 | GpuArch::Ascend910B3 | GpuArch::Ascend310P3 => 64,
        }
    }

    /// Whether there is a tensor memory accelerator.
    pub fn has_tma(self) -> (r: bool)
        ensures
            r == self.since_hopper(),
    {
        matches!(self, GpuArch::Hopper90 | GpuArch::Blackwell100)
    }

    /// Whether groups of warps multiply matrices together.
    pub fn has_wgmma(self) -> (r: bool)
        ensures
            r == self.since_hopper(),
    {
        matches!(self, GpuArch::Hopper90 | GpuArch::Blackwell100)
    }

    /// Whether SIMD groups multiply matrices.
    pub fn has_simdgroup(self) -> (r: bool)
        ensures
            r == self.apple(),
    {
        matches!(self, GpuArch::Apple6 | GpuArch::Apple7 | GpuArch::Apple8)
    }

    /// Whether there is a unit for matrices besides the one for vectors.
    pub fn has_cube_core(self) -> (r: bool)
        ensures
            r == self.cubic(),
    {
        matches!(self, GpuArch::Ascend910B1 | GpuArch::Ascend910B3)
    }

    pub fn name(self) -> (r: &'static str)
        ensures
            r@ == self.label(),
    {
        match self {
            GpuArch::Ampere80 => "Ampere SM80",
            GpuArch::Hopper90 => "Hopper SM90",
            GpuArch::Blackwell100 => "Blackwell SM100",
            GpuArch::Apple6 => "Apple M1",
            GpuArch::Apple7 => "Apple M2",
            GpuArch::Apple8 => "Apple M3",
            GpuArch::Ascend910B1 => "Ascend 910B1",
            GpuArch::Ascend910B3 => "Ascend 910B3",
            GpuArch::Ascend310P3 => "Ascend 310P3",
        }
    }
}

/// The types that element types become in generated sources.
pub trait DTypeExt: Sized {
    spec fn c_text(self) -> Seq<char>;

    spec fn msl_text(self) -> Seq<char>;

    spec fn triton_text(self) -> Seq<char>;

    spec fn cann_text(self) -> Seq<char>;

    spec fn width(self) -> nat;

    fn c_type(self) -> (r: &'static str)
        ensures
            r@ == self.c_text(),
    ;

    fn msl_type(self) -> (r: &'static str)
        ensures
            r@ == self.msl_text(),
    ;

    fn triton_type(self) -> (r: &'static str)
        ensures
            r@ == self.triton_text(),
    ;

    fn cann_type(self) -> (r: &'static str)
        ensures
            r@ == self.cann_text(),
    ;

    fn size_bytes(self) -> (r: usize)
        ensures
            r == self.width(),
    ;
}

impl DTypeExt for DType {
    open spec fn c_text(self) -> Seq<char> {
        match self {
            DType::F32 => "float"@,
            DType::F16 => "__half"@,
            DType::BF16 => "__nv_bfloat16"@,
            DType::I64 => "long long"@,
            DType::I32 => "int"@,
            DType::Bool => "bool"@,
        }
    }

    open spec fn msl_text(self) -> Seq<char> {
        match self {
            DType::F32 => "float"@,
            DType::F16 => "half"@,
            DType::BF16 => "bfloat"@,
            DType::I64 => "long"@,
            DType::I32 => "int"@,
            DType::Bool => "bool"@,
        }
    }

    open spec fn triton_text(self) -> Seq<char> {
        match self {
            DType::F32 => "tl.float32"@,
            DType::F16 => "tl.float16"@,
            DType::BF16 => "tl.bfloat16"@,
            DType::I64 => "tl.int64"@,
            DType::I32 => "tl.int32"@,
            DType::Bool => "tl.int1"@,
        }
    }

    open spec fn cann_text(self) -> Seq<char> {
        match self {
            DType::F32 => "float"@,
            DType::F16 => "__fp16"@,
            DType::BF16 => "__bf16"@,
            DType::I64 => "int64_t"@,
            DType::I32 => "int32_t"@,
            DType::Bool => "bool"@,
        }
    }

    open spec fn width(self) -> nat {
        match self {
            DType::F32 => 4,
            DType::I32 => 4,
            DType::F16 => 2,
            DType::BF16 => 2,
            DType::Bool => 2,
            DType::I64 => 8,
        }
    }

    fn c_type(self) -> (r: &'static str) {
        match self {
            DType::F32 => "float",
            DType::F16 => "__half",
            DType::BF16 => "__nv_bfloat16",
            DType::I64 => "long long",
            DType::I32 => "int",
            DType::Bool => "bool",
        }
    }

    fn msl_type(self) -> (r: &'static str) {
        match self {
            DType::F32 => "float",
            DType::F16 => "half",
            DType::BF16 => "bfloat",
            DType::I64 => "long",
            DType::I32 => "int",
            DType::Bool => "bool",
        }
    }

    fn triton_type(self) -> (r: &'static str) {
        match self {
            DType::F32 => "tl.float32",
            DType::F16 => "tl.float16",
            DType::BF16 => "tl.bfloat16",
            DType::I64 => "tl.int64",
            DType::I32 => "tl.int32",
            DType::Bool => "tl.int1",
        }
    }

    fn cann_type(self) -> (r: &'static str) {
        match self {
            DType::F32 => "float",
            DType::F16 => "__fp16",
            DType::BF16 => "__bf16",
            DType::I64 => "int64_t",
            DType::I32 => "int32_t",
            DType::Bool => "bool",
        }
    }

    fn size_bytes(self) -> (r: usize) {
        match self {
            DType::F32 | DType::I32 => 4,
            DType::F16 | DType::BF16 | DType::Bool => 2,
            DType::I64 => 8,
        }
    }
}

/// The product of the positive dimensions.
pub open spec fn count_of(dims: Seq<i64>) -> nat
    decreases dims.len(),
{
    if dims.len() == 0 {
        1
    } else if dims.last() > 0 {
        count_of(dims.drop_last()) * dims.last() as nat
    } else {
        count_of(dims.drop_last())
    }
}

/// A shape without its last dimensions has no more elements.
proof fn count_grows(dims: Seq<i64>, k: int)
    requires
        0 <= k <= dims.len(),
    ensures
        1 <= count_of(dims.take(k)) <= count_of(dims),
    decreases dims.len(),
{
    if k < dims.len() {
        assert(dims.drop_last().take(k) == dims.take(k));
        count_grows(dims.drop_last(), k);
        let a = count_of(dims.drop_last());
        if dims.last() > 0 {
            let d = dims.last() as nat;
            assert(a <= a * d) by (nonlinear_arith)
                requires
                    d >= 1,
            ;
        }
    } else {
        assert(dims.take(k) == dims);
        if k > 0 {
            count_grows(dims.drop_last(), k - 1);
            assert(dims.drop_last().take(k - 1) == dims.drop_last());
            let a = count_of(dims.drop_last());
            if dims.last() > 0 {
                let d = dims.last() as nat;
                assert(1 <= a * d) by (nonlinear_arith)
                    requires
                        d >= 1,
                        a >= 1,
                ;
            }
        }
    }
}

/// The numbers in decimal, with a separator between them.
pub open spec fn listed(v: Seq<i64>, sep: Seq<char>) -> Seq<char>
    decreases v.len(),
{
    if v.len() == 0 {
        Seq::empty()
    } else if v.len() == 1 {
        dec_int(v[0] as int)
    } else {
        listed(v.drop_last(), sep) + sep + dec_int(v.last() as int)
    }
}

pub(crate) fn list_ints(v: &Vec<i64>, sep: &str) -> (r: String)
    ensures
        r@ == listed(v@, sep@),
{
    let mut s = String::new();
    let mut k: usize = 0;
    while k < v.len()
        invariant
            k <= v@.len(),
            s@ == listed(v@.take(k as int), sep@),
        decreases v@.len() - k,
    {
        if k > 0 {
            s.append(sep);
        }
        push_dec_int(&mut s, v[k]);
        k += 1;
        assert(v@.take(k as int).drop_last() == v@.take(k - 1));
        assert(Seq::<char>::empty() + dec_int(v@[0] as int) == dec_int(v@[0] as int));
    }
    assert(v@.take(k as int) == v@);
    s
}

/// A tensor that a kernel reads or writes.
#[derive(Debug, Clone)]
pub struct TensorSpec {
    pub name: String,
    pub dims: Vec<i64>,
    pub dtype: DType,
    pub is_input: bool,
}

/// What is known of a tensor.
#[verifier::ext_equal]
pub struct TensorModel {
    pub name: Seq<char>,
    pub dims: Seq<i64>,
    pub dtype: DType,
    pub is_input: bool,
}

impl TensorModel {
    /// How many elements the tensor has; dimensions that are not positive do
    /// not count.
    pub open spec fn count(self) -> nat {
        count_of(self.dims)
    }
}

impl View for TensorSpec {
    type V = TensorModel;

    open spec fn view(&self) -> TensorModel {
        TensorModel {
            name: self.name@,
            dims: self.dims@,
            dtype: self.dtype,
            is_input: self.is_input,
        }
    }
}

/// What is known of tensors.
pub open spec fn tensor_models(s: Seq<TensorSpec>) -> Seq<TensorModel> {
    Seq::new(s.len(), |i: int| s[i]@)
}

pub(crate) fn copy_ints(v: &Vec<i64>) -> (r: Vec<i64>)
    ensures
        r@ == v@,
{
    let mut out: Vec<i64> = Vec::new();
    out.extend_from_slice(v.as_slice());
    assert(out@ == v@);
    out
}

impl TensorSpec {
    pub fn element_count(&self) -> (r: usize)
        requires
            self@.count() <= usize::MAX,
        ensures
            r == self@.count(),
    {
        let mut n: usize = 1;
        let mut k: usize = 0;
        while k < self.dims.len()
            invariant
                k <= self.dims@.len(),
                n == count_of(self.dims@.take(k as int)),
                self@.count() <= usize::MAX,
            decreases self.dims@.len() - k,
        {
            let d: i64 = self.dims[k];
            assert(self.dims@.take(k + 1).drop_last() == self.dims@.take(k as int));
            proof {
                count_grows(self.dims@, k + 1);
                count_grows(self.dims@, k as int);
            }
            if d > 0 {
                assert(n * (d as nat) <= usize::MAX);
                assert(d <= n * (d as nat)) by (nonlinear_arith)
                    requires
                        n >= 1,
                        d > 0,
                ;
                n = n * d as usize;
            }
            k += 1;
        }
        assert(self.dims@.take(k as int) == self.dims@);
        n
    }

    /// Whether the number of elements fits its type.
    pub fn count_fits(&self) -> (r: bool)
        ensures
            r == (self@.count() <= usize::MAX),
    {
        let mut n: usize = 1;
        let mut k: usize = 0;
        while k < self.dims.len()
            invariant
                k <= self.dims@.len(),
                n == count_of(self.dims@.take(k as int)),
            decreases self.dims@.len() - k,
        {
            let d: i64 = self.dims[k];
            assert(self.dims@.take(k + 1).drop_last() == self.dims@.take(k as int));
            proof {
                count_grows(self.dims@, k + 1);
                count_grows(self.dims@, k as int);
            }
            if d > 0 {
                assert(d <= n * (d as nat)) by (nonlinear_arith)
                    requires
                        n >= 1,
                        d > 0,
                ;
                if d as u64 > usize::MAX as u64 {
                    return false;
                }
                match n.checked_mul(d as usize) {
                    Some(m) => {
                        n = m;
                    },
                    None => {
                        return false;
                    },
                }
            }
            k += 1;
        }
        assert(self.dims@.take(k as int) == self.dims@);
        true
    }

    /// The size in memory. It has to fit `usize`.
    pub fn bytes(&self) -> (r: usize)
        requires
            self@.count() * self.dtype.width() <= usize::MAX,
        ensures
            r == self@.count() * self.dtype.width(),
    {
        assert(self@.count() <= self@.count() * self.dtype.width()) by (nonlinear_arith)
            requires
                self.dtype.width() >= 1,
        ;
        self.element_count() * self.dtype.size_bytes()
    }

    /// The dimensions, such as `1024, 1024`.
    pub fn dims_str(&self) -> (r: String)
        ensures
            r@ == listed(self@.dims, ", "@),
    {
        list_ints(&self.dims, ", ")
    }

    pub fn c_type(&self) -> (r: &'static str)
        ensures
            r@ == self.dtype.c_text(),
    {
        self.dtype.c_type()
    }
}

/// The attributes of a kernel. Floats are held by their bits.
#[derive(Debug, Clone)]
pub struct KernelAttrs {
    pub axis: Option<i64>,
    pub perm: Vec<i64>,
    pub shape: Vec<i64>,
    pub strides: Vec<i64>,
    pub epsilon: Option<u64>,
    pub value: Option<u64>,
    pub tensor_data: Vec<u64>,
    pub conv_stride: Vec<i64>,
    pub conv_padding: Vec<i64>,
    pub conv_dilation: Vec<i64>,
    pub conv_groups: Option<i64>,
    pub fused_ops: Vec<String>,
    pub custom_op_type: String,
    pub slice_starts: Vec<i64>,
    pub slice_ends: Vec<i64>,
    pub slice_axes: Vec<i64>,
    pub slice_steps: Vec<i64>,
    pub pool_kernel: Vec<i64>,
    pub pool_stride: Vec<i64>,
    pub pool_padding: Vec<i64>,
}

/// What the attributes of a kernel say.
#[verifier::ext_equal]
pub struct AttrsModel {
    pub axis: Option<i64>,
    pub perm: Seq<i64>,
    pub shape: Seq<i64>,
    pub strides: Seq<i64>,
    pub epsilon: Option<u64>,
    pub value: Option<u64>,
    pub tensor_data: Seq<u64>,
    pub conv_stride: Seq<i64>,
    pub conv_padding: Seq<i64>,
    pub conv_dilation: Seq<i64>,
    pub conv_groups: Option<i64>,
    pub fused_ops: Seq<Seq<char>>,
    pub custom_op_type: Seq<char>,
    pub slice_starts: Seq<i64>,
    pub slice_ends: Seq<i64>,
    pub slice_axes: Seq<i64>,
    pub slice_steps: Seq<i64>,
    pub pool_kernel: Seq<i64>,
    pub pool_stride: Seq<i64>,
    pub pool_padding: Seq<i64>,
}

impl AttrsModel {
    /// No attributes.
    pub open spec fn none() -> AttrsModel {
        AttrsModel {
            axis: None,
            perm: Seq::empty(),
            shape: Seq::empty(),
            strides: Seq::empty(),
            epsilon: None,
            value: None,
            tensor_data: Seq::empty(),
            conv_stride: Seq::empty(),
            conv_padding: Seq::empty(),
            conv_dilation: Seq::empty(),
            conv_groups: None,
            fused_ops: Seq::empty(),
            custom_op_type: Seq::empty(),
            slice_starts: Seq::empty(),
            slice_ends: Seq::empty(),
            slice_axes: Seq::empty(),
            slice_steps: Seq::empty(),
            pool_kernel: Seq::empty(),
            pool_stride: Seq::empty(),
            pool_padding: Seq::empty(),
        }
    }
}

impl View for KernelAttrs {
    type V = AttrsModel;

    open spec fn view(&self) -> AttrsModel {
        AttrsModel {
            axis: self.axis,
            perm: self.perm@,
            shape: self.shape@,
            strides: self.strides@,
            epsilon: self.epsilon,
            value: self.value,
            tensor_data: self.tensor_data@,
            conv_stride: self.conv_stride@,
            conv_padding: self.conv_padding@,
            conv_dilation: self.conv_dilation@,
            conv_groups: self.conv_groups,
            fused_ops: texts(self.fused_ops@),
            custom_op_type: self.custom_op_type@,
            slice_starts: self.slice_starts@,
            slice_ends: self.slice_ends@,
            slice_axes: self.slice_axes@,
            slice_steps: self.slice_steps@,
            pool_kernel: self.pool_kernel@,
            pool_stride: self.pool_stride@,
            pool_padding: self.pool_padding@,
        }
    }
}

impl Default for KernelAttrs {
    fn default() -> (r: Self)
        ensures
            r@ == AttrsModel::none(),
    {
        let r = KernelAttrs {
            axis: None,
            perm: Vec::new(),
            shape: Vec::new(),
            strides: Vec::new(),
            epsilon: None,
            value: None,
            tensor_data: Vec::new(),
            conv_stride: Vec::new(),
            conv_padding: Vec::new(),
            conv_dilation: Vec::new(),
            conv_groups: None,
            fused_ops: Vec::new(),
            custom_op_type: String::new(),
            slice_starts: Vec::new(),
            slice_ends: Vec::new(),
            slice_axes: Vec::new(),
            slice_steps: Vec::new(),
            pool_kernel: Vec::new(),
            pool_stride: Vec::new(),
            pool_padding: Vec::new(),
        };
        assert(r@ == AttrsModel::none());
        r
    }
}

/// A kernel: one node of a graph, with all that source generation reads.
#[derive(Debug, Clone)]
pub struct KernelSpec {
    /// Such as `neutron_add_0`.
    pub name: String,
    pub op: OpKind,
    pub inputs: Vec<TensorSpec>,
    pub outputs: Vec<TensorSpec>,
    pub attrs: KernelAttrs,
    /// The element type of the first output.
    pub dtype: DType,
    /// The position of the node.
    pub node_idx: u32,
}

/// What is known of a kernel.
#[verifier::ext_equal]
pub struct KernelModel {
    pub name: Seq<char>,
    pub op: OpKind,
    pub inputs: Seq<TensorModel>,
    pub outputs: Seq<TensorModel>,
    pub attrs: AttrsModel,
    pub dtype: DType,
    pub node_idx: u32,
}

impl View for KernelSpec {
    type V = KernelModel;

    open spec fn view(&self) -> KernelModel {
        KernelModel {
            name: self.name@,
            op: self.op,
            inputs: tensor_models(self.inputs@),
            outputs: tensor_models(self.outputs@),
            attrs: self.attrs@,
            dtype: self.dtype,
            node_idx: self.node_idx,
        }
    }
}

/// What is known of kernels.
pub open spec fn kernel_models(s: Seq<KernelSpec>) -> Seq<KernelModel> {
    Seq::new(s.len(), |i: int| s[i]@)
}

/// How a kernel is launched: blocks, threads of a block, and bytes of shared memory.
#[derive(Debug, Clone, Copy)]
pub struct LaunchSpec {
    pub grid: (u32, u32, u32),
    pub block: (u32, u32, u32),
    pub shared_mem: u32,
}

/// A triple as CUDA writes it.
pub open spec fn dim3(v: (u32, u32, u32)) -> Seq<char> {
    "dim3("@ + dec(v.0 as nat) + ", "@ + dec(v.1 as nat) + ", "@ + dec(v.2 as nat) + ")"@
}

fn dim3_str(v: (u32, u32, u32)) -> (r: String)
    ensures
        r@ == dim3(v),
{
    let mut s = "dim3(".to_owned();
    push_dec(&mut s, v.0 as u64);
    s.append(", ");
    push_dec(&mut s, v.1 as u64);
    s.append(", ");
    push_dec(&mut s, v.2 as u64);
    s.append(")");
    s
}

impl LaunchSpec {
    pub fn grid_str(&self) -> (r: String)
        ensures
            r@ == dim3(self.grid),
    {
        dim3_str(self.grid)
    }

    pub fn block_str(&self) -> (r: String)
        ensures
            r@ == dim3(self.block),
    {
        dim3_str(self.block)
    }
}

/// The larger of a number and one.
pub open spec fn at_least_one(n: int) -> u32 {
    if n < 1 {
        1
    } else {
        n as u32
    }
}

impl KernelModel {
    /// How many elements the first output has.
    pub open spec fn out_len(self) -> nat {
        if self.outputs.len() == 0 {
            0
        } else {
            self.outputs[0].count()
        }
    }

    /// How many rows the first output has.
    pub open spec fn rows(self) -> i64 {
        if self.outputs.len() == 0 || self.outputs[0].dims.len() == 0 {
            1
        } else {
            self.outputs[0].dims[0]
        }
    }

    /// Whether the launch depends on how many elements the first output has.
    pub open spec fn counted(self) -> bool {
        match self.op {
            OpKind::MatMul | OpKind::Softmax | OpKind::LayerNorm | OpKind::Conv | OpKind::Constant
            | OpKind::Placeholder | OpKind::Return => false,
            _ => true,
        }
    }

    /// The count of elements fits its type, where the launch depends on it.
    pub open spec fn fits(self) -> bool {
        self.counted() ==> self.out_len() <= usize::MAX
    }

    /// How the kernel is launched. A number of elements counts by its lowest
    /// 32 bits.
    pub open spec fn launched(self, arch: GpuArch) -> LaunchSpec {
        match self.op {
            OpKind::ReduceSum | OpKind::ReduceMean | OpKind::ReduceMax => LaunchSpec {
                grid: (at_least_one(self.out_len() as int) as u32, 1, 1),
                block: (256, 1, 1),
                shared_mem: 1024,
            },
            OpKind::MatMul => if arch.since_hopper() {
                LaunchSpec {
                    grid: (8, 8, 1),
                    block: (128, 1, 1),
                    shared_mem: (arch.shared_kilobytes() * 1024) as u32,
                }
            } else {
                LaunchSpec { grid: (8, 8, 1), block: (16, 16, 1), shared_mem: 2048 }
            },
            OpKind::Softmax | OpKind::LayerNorm => LaunchSpec {
                grid: (at_least_one((self.rows() as u32) as int), 1, 1),
                block: (256, 1, 1),
                shared_mem: 1024,
            },
            OpKind::Conv => LaunchSpec {
                grid: (16, 16, 1),
                block: (16, 16, 1),
                shared_mem: (arch.shared_kilobytes() * 512) as u32,
            },
            OpKind::Constant | OpKind::Placeholder | OpKind::Return => LaunchSpec {
                grid: (1, 1, 1),
                block: (1, 1, 1),
                shared_mem: 0,
            },
            _ => LaunchSpec {
                grid: (at_least_one(((self.out_len() as u32) + 255) / 256), 1, 1),
                block: (256, 1, 1),
                shared_mem: 0,
            },
        }
    }
}

impl KernelSpec {
    /// How the kernel is launched: element by element, a block for each result
    /// of a reduction, a block for each row, or tiles.
    pub fn launch(&self, arch: GpuArch) -> (r: LaunchSpec)
        requires
            self@.fits(),
        ensures
            r == self@.launched(arch),
    {
        match self.op {
            OpKind::ReduceSum | OpKind::ReduceMean | OpKind::ReduceMax => {
                let len: usize = self.first_output_len();
                let n: u32 = if len < 1 {
                    1
                } else {
                    len as u32
                };
                LaunchSpec { grid: (n, 1, 1), block: (256, 1, 1), shared_mem: 256 * 4 }
            },
            OpKind::MatMul => {
                if arch.has_wgmma() {
                    LaunchSpec {
                        grid: (8, 8, 1),
                        block: (128, 1, 1),
                        shared_mem: arch.max_shared_mem() as u32,
                    }
                } else {
                    LaunchSpec { grid: (8, 8, 1), block: (16, 16, 1), shared_mem: 16 * 16 * 4 * 2 }
                }
            },
            OpKind::Softmax | OpKind::LayerNorm => {
                let first: i64 = if self.outputs.len() == 0 {
                    1
                } else if self.outputs[0].dims.len() == 0 {
                    1
                } else {
                    self.outputs[0].dims[0]
                };
                let rows: u32 = #[verifier::truncate]
                (first as u32);
                let n: u32 = if rows < 1 {
                    1
                } else {
                    rows
                };
                LaunchSpec { grid: (n, 1, 1), block: (256, 1, 1), shared_mem: 256 * 4 }
            },
            OpKind::Conv => LaunchSpec {
                grid: (16, 16, 1),
                block: (16, 16, 1),
                shared_mem: arch.max_shared_mem() as u32 / 2,
            },
            OpKind::Constant | OpKind::Placeholder | OpKind::Return => LaunchSpec {
                grid: (1, 1, 1),
                block: (1, 1, 1),
                shared_mem: 0,
            },
            _ => {
                let len: usize = self.first_output_len();
                let n: u32 = #[verifier::truncate]
                (len as u32);
                let blocks: u32 = n / 256 + if n % 256 == 0 {
                    0u32
                } else {
                    1u32
                };
                let grid: u32 = if blocks < 1 {
                    1
                } else {
                    blocks
                };
                LaunchSpec { grid: (grid, 1, 1), block: (256, 1, 1), shared_mem: 0 }
            },
        }
    }

    /// Whether the launch depends on how many elements the first output has.
    pub fn is_counted(&self) -> (r: bool)
        ensures
            r == self@.counted(),
    {
        match self.op {
            OpKind::MatMul | OpKind::Softmax | OpKind::LayerNorm | OpKind::Conv | OpKind::Constant
            | OpKind::Placeholder | OpKind::Return => false,
            _ => true,
        }
    }

    /// Whether the number of elements of the first output fits its type.
    pub fn count_fits(&self) -> (r: bool)
        ensures
            r == (self@.out_len() <= usize::MAX),
    {
        if self.outputs.len() == 0 {
            true
        } else {
            self.outputs[0].count_fits()
        }
    }

    fn first_output_len(&self) -> (r: usize)
        requires
            self@.out_len() <= usize::MAX,
        ensures
            r == self@.out_len(),
    {
        if self.outputs.len() == 0 {
            0
        } else {
            self.outputs[0].element_count()
        }
    }
}

/// Every kernel is launched with at least one block of at least one thread,
/// unless a reduction has a multiple of 2^32 results.
pub proof fn launches_run(k: KernelModel, arch: GpuArch)
    requires
        k.op == OpKind::ReduceSum || k.op == OpKind::ReduceMean || k.op == OpKind::ReduceMax
            ==> k.out_len() <= u32::MAX,
    ensures
        k.launched(arch).grid.0 >= 1,
        k.launched(arch).grid.1 >= 1,
        k.launched(arch).grid.2 >= 1,
        k.launched(arch).block.0 >= 1,
        k.launched(arch).block.1 >= 1,
        k.launched(arch).block.2 >= 1,
{
}

/// Where the launch counts elements and blocks do not serve single results,
/// there is a thread for each element, as long as the count fits 32 bits.
pub proof fn launches_cover(k: KernelModel, arch: GpuArch)
    requires
        k.counted(),
        k.out_len() <= u32::MAX,
    ensures
        k.launched(arch).grid.0 * k.launched(arch).block.0 >= k.out_len(),
{
}

/// No kernel is launched with more shared memory than the architecture has.
pub proof fn launches_fit_shared_memory(k: KernelModel, arch: GpuArch)
    ensures
        k.launched(arch).shared_mem <= arch.shared_kilobytes() * 1024,
{
}

/// The language of generated source.
#[derive(Debug, Clone, Copy, PartialEq, Eq, Structural)]
pub enum SourceLang {
    Cuda,
    Triton,
    Metal,
    Cann,
    /// Nothing is generated for it.
    Cpu,
}

impl SourceLang {
    /// The extension of source files.
    pub open spec fn suffix(self) -> Seq<char> {
        match self {
            SourceLang::Cuda => "cu"@,
            SourceLang::Triton => "py"@,
            SourceLang::Metal => "metal"@,
            SourceLang::Cann => "cpp"@,
            SourceLang::Cpu => "c"@,
        }
    }

    /// How the language is called.
    pub open spec fn label(self) -> Seq<char> {
        match self {
            SourceLang::Cuda => "CUDA C++"@,
            SourceLang::Triton => "Triton (Python)"@,
            SourceLang::Metal => "Metal Shading Language"@,
            SourceLang::Cann => "Ascend CANN C++"@,
            SourceLang::Cpu => "CPU C (not implemented)"@,
        }
    }

    pub fn extension(self) -> (r: &'static str)
        ensures
            r@ == self.suffix(),
    {
        match self {
            SourceLang::Cuda => "cu",
            SourceLang::Triton => "py",
            SourceLang::Metal => "metal",
            SourceLang::Cann => "cpp",
            SourceLang::Cpu => "c",
        }
    }

    pub fn name(self) -> (r: &'static str)
        ensures
            r@ == self.label(),
    {
        match self {
            SourceLang::Cuda => "CUDA C++",
            SourceLang::Triton => "Triton (Python)",
            SourceLang::Metal => "Metal Shading Language",
            SourceLang::Cann => "Ascend CANN C++",
            SourceLang::Cpu => "CPU C (not implemented)",
        }
    }
}

/// What a caller of a generated kernel has to know.
#[derive(Debug, Clone)]
pub struct KernelInfo {
    pub name: String,
    pub launch: LaunchSpec,
    pub shared_mem: u32,
}

#[verifier::ext_equal]
pub struct InfoModel {
    pub name: Seq<char>,
    pub launch: LaunchSpec,
    pub shared_mem: u32,
}

impl View for KernelInfo {
    type V = InfoModel;

    open spec fn view(&self) -> InfoModel {
        InfoModel { name: self.name@, launch: self.launch, shared_mem: self.shared_mem }
    }
}

impl KernelModel {
    /// What a caller of the generated kernel has to know.
    pub open spec fn info(self, arch: GpuArch) -> InfoModel {
        InfoModel {
            name: self.name,
            launch: self.launched(arch),
            shared_mem: self.launched(arch).shared_mem,
        }
    }
}

/// Generated source.
#[derive(Debug, Clone)]
pub struct BackendOutput {
    pub source: String,
    pub lang: SourceLang,
    pub kernels: Vec<KernelInfo>,
    pub arch: GpuArch,
}

#[verifier::ext_equal]
pub struct OutputModel {
    pub source: Seq<char>,
    pub lang: SourceLang,
    pub kernels: Seq<InfoModel>,
    pub arch: GpuArch,
}

impl View for BackendOutput {
    type V = OutputModel;

    open spec fn view(&self) -> OutputModel {
        OutputModel {
            source: self.source@,
            lang: self.lang,
            kernels: Seq::new(self.kernels@.len(), |i: int| self.kernels@[i]@),
            arch: self.arch,
        }
    }
}

} // verus!
