//! Tensors are read as they are written.

use vstd::prelude::*;
use vstd::utf8::{encode_utf8, encode_utf8_decode_utf8, encode_utf8_valid_utf8};
use crate::base::ErrorModel;
use crate::bytes::{le_value, signed};
use crate::float_bits::widened;
use crate::frontend::message_laws::{field_is_read_back, len_field, numbers_are_unpacked, packed};
use crate::frontend::messages::{TensorInfoModel, TensorParts, tensor_from, tensor_known};
use crate::frontend::proto::{
    PayloadModel, field_at, field_moves_on, number_round_trip, varint_bytes,
};
use crate::storage::unpack_words;

verus! {

/// A field with a number as it is written.
pub open spec fn number_field(n: u32, v: u64) -> Seq<u8> {
    varint_bytes((8 * n) as nat) + varint_bytes(v as nat)
}

/// A field with a number that was written is read back.
pub proof fn number_field_is_read_back(pre: Seq<u8>, n: u32, v: u64, post: Seq<u8>, known: Seq<u32>)
    ensures
        field_at(pre + number_field(n, v) + post, pre.len(), known) == Ok::<
            (u32, PayloadModel, nat),
            ErrorModel,
        >((n, PayloadModel::Varint(v), pre.len() + number_field(n, v).len())),
{
    let d = pre + number_field(n, v) + post;
    let tag = (8 * n) as u64;
    let t = varint_bytes(tag as nat);
    let l = varint_bytes(v as nat);
    number_round_trip(pre, tag, l + post);
    assert(pre + t + (l + post) == d);
    number_round_trip(pre + t, v, post);
    assert((pre + t) + l + post == d);
    assert((tag / 8) as u32 == n && tag % 8 == 0);
}

/// One more field of a tensor.
proof fn tensor_takes_bytes(pre: Seq<u8>, n: u32, b: Seq<u8>, post: Seq<u8>, t: TensorParts, u: TensorParts)
    requires
        b.len() <= u64::MAX,
        t.with(n, PayloadModel::Len(b)) == Ok::<TensorParts, ErrorModel>(u),
    ensures
        tensor_from(pre + len_field(n, b) + post, pre.len(), t) == tensor_from(
            pre + len_field(n, b) + post,
            (pre + len_field(n, b)).len(),
            u,
        ),
{
    let d = pre + len_field(n, b) + post;
    field_is_read_back(pre, n, b, post, tensor_known());
    field_moves_on(d, pre.len(), tensor_known());
}

proof fn tensor_takes_number(pre: Seq<u8>, n: u32, v: u64, post: Seq<u8>, t: TensorParts, u: TensorParts)
    requires
        t.with(n, PayloadModel::Varint(v)) == Ok::<TensorParts, ErrorModel>(u),
    ensures
        tensor_from(pre + number_field(n, v) + post, pre.len(), t) == tensor_from(
            pre + number_field(n, v) + post,
            (pre + number_field(n, v)).len(),
            u,
        ),
{
    let d = pre + number_field(n, v) + post;
    number_field_is_read_back(pre, n, v, post, tensor_known());
    field_moves_on(d, pre.len(), tensor_known());
}

/// A tensor as it is written: its dimensions, its type, its name and its elements.
pub open spec fn tensor_message(name: Seq<char>, dims: Seq<i64>, ty: u64, raw: Seq<u8>) -> Seq<u8> {
    len_field(1, packed(dims)) + number_field(2, ty) + len_field(8, encode_utf8(name)) + len_field(
        9,
        raw,
    )
}

/// The single precision elements of a byte sequence, one after the other.
pub open spec fn single_elements(raw: Seq<u8>) -> Seq<u64> {
    Seq::new(
        (raw.len() / 4) as nat,
        |i: int| widened(le_value(raw.subrange(4 * i, 4 * i + 4)) as u32),
    )
}

/// A tensor is read as it is written: its name, all its dimensions in order, and all
/// its elements in order, in single or in double precision by its type.
pub proof fn tensor_is_read_back(name: Seq<char>, dims: Seq<i64>, double: bool, raw: Seq<u8>)
    requires
        raw.len() >= 8,
        raw.len() <= u64::MAX,
        packed(dims).len() <= u64::MAX,
        encode_utf8(name).len() <= u64::MAX,
    ensures
        ({
            let ty = if double {
                11u64
            } else {
                1u64
            };
            tensor_from(tensor_message(name, dims, ty, raw), 0, TensorParts::none()) == Ok::<
                TensorInfoModel,
                ErrorModel,
            >(
                TensorInfoModel {
                    name,
                    dims,
                    data_type: if double {
                        11
                    } else {
                        1
                    },
                    values: if double {
                        unpack_words(raw)
                    } else {
                        single_elements(raw)
                    },
                },
            )
        }),
{
    let ty = if double {
        11u64
    } else {
        1u64
    };
    let d = tensor_message(name, dims, ty, raw);
    let none = Seq::<u8>::empty();
    let f1 = len_field(1, packed(dims));
    let f2 = number_field(2, ty);
    let f3 = len_field(8, encode_utf8(name));
    let f4 = len_field(9, raw);
    let t0 = TensorParts::none();
    let t1 = TensorParts { dims, ..t0 };
    let t2 = TensorParts { data_type: signed(ty), ..t1 };
    let t3 = TensorParts { name, ..t2 };
    let t4 = t3.with_raw(raw);
    numbers_are_unpacked(dims, Seq::empty());
    assert(Seq::<i64>::empty() + dims == dims);
    encode_utf8_valid_utf8(name);
    encode_utf8_decode_utf8(name);
    assert(d == none + f1 + (f2 + f3 + f4));
    tensor_takes_bytes(none, 1, packed(dims), f2 + f3 + f4, t0, t1);
    assert(none + f1 == f1);
    assert(d == f1 + f2 + (f3 + f4));
    tensor_takes_number(f1, 2, ty, f3 + f4, t1, t2);
    tensor_takes_bytes(f1 + f2, 8, encode_utf8(name), f4, t2, t3);
    assert(d == (f1 + f2 + f3) + f4 + none);
    tensor_takes_bytes(f1 + f2 + f3, 9, raw, none, t3, t4);
    assert((f1 + f2 + f3 + f4).len() == d.len());
    assert(signed(ty) == ty);
    assert(crate::frontend::messages::singles(raw) == single_elements(raw));
    assert(tensor_from(d, d.len(), t4) == Ok::<TensorInfoModel, ErrorModel>(t4.whole()));
}

} // verus!
