//! What the packed storage promises: what was written is read back, and a
//! write to one node or value leaves the others as they were.

use vstd::prelude::*;
use vstd::utf8::{encode_scalar, encode_utf8};
use crate::base::{TypeModel, TypeTag, type_tag_round_trip};
use crate::bytes::{le_bytes, le_round_trip, le_value, pow256_values, signed, signed_round_trip, unsigned};
use crate::storage::{
    AttrEntry, AttrKey, AttrTag, StorageModel, ints_of, pack_words, unpack_words,
    until_nul, words_of,
};

verus! {

/// Packing words takes eight bytes for each, in order.
proof fn pack_words_at(s: Seq<u64>, i: int)
    requires
        0 <= i < s.len(),
    ensures
        pack_words(s).len() == 8 * s.len(),
        pack_words(s).subrange(8 * i, 8 * i + 8) == le_bytes(s[i] as nat, 8),
    decreases s.len(),
{
    let front = s.drop_last();
    le_round_trip(s.last() as nat, 8);
    if i < s.len() - 1 {
        pack_words_at(front, i);
        assert(pack_words(s).subrange(8 * i, 8 * i + 8) == pack_words(front).subrange(8 * i, 8 * i + 8));
    } else {
        if front.len() > 0 {
            pack_words_at(front, 0);
        }
        assert(pack_words(front).len() == 8 * i);
        assert(pack_words(s) == pack_words(front) + le_bytes(s[i] as nat, 8));
        assert(pack_words(s).subrange(8 * i, 8 * i + 8) == le_bytes(s[i] as nat, 8));
    }
}

/// Words that were packed are unpacked again.
pub proof fn pack_round_trip(s: Seq<u64>)
    ensures
        pack_words(s).len() == 8 * s.len(),
        unpack_words(pack_words(s)) == s,
{
    if s.len() > 0 {
        pack_words_at(s, 0);
    }
    assert forall|i: int| 0 <= i < s.len() implies unpack_words(pack_words(s))[i] == s[i] by {
        pack_words_at(s, i);
        le_round_trip(s[i] as nat, 8);
        pow256_values();
    }
    assert(unpack_words(pack_words(s)) == s);
}

/// Signed numbers are fixed by their bits.
pub proof fn words_round_trip(s: Seq<i64>)
    ensures
        ints_of(words_of(s)) == s,
{
    assert forall|i: int| 0 <= i < s.len() implies ints_of(words_of(s))[i] == s[i] by {
        signed_round_trip(s[i]);
    }
    assert(ints_of(words_of(s)) == s);
}

/// Allocating a node keeps the storage well formed, as long as identifiers
/// last, and leaves every other node and every value as it was.
pub proof fn node_is_added(m: StorageModel, op_tag: u8)
    requires
        m.wf(),
        m.nodes.len() < u32::MAX,
    ensures
        m.with_node(op_tag).wf(),
        m.with_node(op_tag).node_inputs(m.nodes.len() as int) == Seq::<u32>::empty(),
        m.with_node(op_tag).node_outputs(m.nodes.len() as int) == Seq::<u32>::empty(),
        m.with_node(op_tag).node_attrs(m.nodes.len() as int) == Seq::<AttrEntry>::empty(),
        forall|i: int|
            0 <= i < m.nodes.len() ==> #[trigger] m.with_node(op_tag).nodes[i] == m.nodes[i],
{
    let n = m.with_node(op_tag);
    assert forall|i: int| 0 <= i < n.nodes.len() implies #[trigger] n.node_ok(i) by {
        if i < m.nodes.len() {
            assert(m.node_ok(i));
        }
    }
    assert forall|i: int| 0 <= i < n.values.len() implies #[trigger] n.value_ok(i) by {
        assert(m.value_ok(i));
    }
}

/// The inputs of a node that were set are read back. The operands and attributes
/// of the other nodes, and the outputs and attributes of this one, stay as they
/// were.
pub proof fn inputs_read_back(m: StorageModel, node: int, ins: Seq<u32>)
    requires
        m.wf(),
        0 <= node < m.nodes.len(),
        m.edges.len() + ins.len() <= u32::MAX,
    ensures
        m.with_inputs(node, ins).wf(),
        m.with_inputs(node, ins).node_inputs(node) == ins,
        m.with_inputs(node, ins).node_outputs(node) == m.node_outputs(node),
        m.with_inputs(node, ins).node_attrs(node) == m.node_attrs(node),
        forall|i: int|
            0 <= i < m.nodes.len() && i != node ==> #[trigger] m.with_inputs(node, ins).node_inputs(i)
                == m.node_inputs(i),
        forall|i: int|
            0 <= i < m.nodes.len() && i != node ==> #[trigger] m.with_inputs(node, ins).node_outputs(i)
                == m.node_outputs(i),
        forall|i: int|
            0 <= i < m.nodes.len() && i != node ==> #[trigger] m.with_inputs(node, ins).node_attrs(i)
                == m.node_attrs(i),
{
    let n = m.with_inputs(node, ins);
    assert(m.node_ok(node));
    assert forall|i: int| 0 <= i < n.nodes.len() implies #[trigger] n.node_ok(i) by {
        assert(m.node_ok(i));
    }
    assert forall|i: int| 0 <= i < n.values.len() implies #[trigger] n.value_ok(i) by {
        assert(m.value_ok(i));
    }
    assert(n.node_inputs(node) == ins);
    assert(n.node_outputs(node) == m.node_outputs(node));
    assert forall|i: int| 0 <= i < m.nodes.len() && i != node implies #[trigger] n.node_inputs(i)
        == m.node_inputs(i) by {
        assert(m.node_ok(i));
        assert(n.node_inputs(i) == m.node_inputs(i));
    }
    assert forall|i: int| 0 <= i < m.nodes.len() && i != node implies #[trigger] n.node_outputs(i)
        == m.node_outputs(i) by {
        assert(m.node_ok(i));
        assert(n.node_outputs(i) == m.node_outputs(i));
    }
    assert forall|i: int| 0 <= i < m.nodes.len() && i != node implies #[trigger] n.node_attrs(i)
        == m.node_attrs(i) by {
        assert(m.node_ok(i));
        assert(n.node_attrs(i) == m.node_attrs(i));
    }
}

/// The outputs of a node that were set are read back. The operands and
/// attributes of the other nodes, and the inputs and attributes of this one, stay
/// as they were.
pub proof fn outputs_read_back(m: StorageModel, node: int, outs: Seq<u32>)
    requires
        m.wf(),
        0 <= node < m.nodes.len(),
        m.edges.len() + outs.len() <= u32::MAX,
    ensures
        m.with_outputs(node, outs).wf(),
        m.with_outputs(node, outs).node_outputs(node) == outs,
        m.with_outputs(node, outs).node_inputs(node) == m.node_inputs(node),
        m.with_outputs(node, outs).node_attrs(node) == m.node_attrs(node),
        forall|i: int|
            0 <= i < m.nodes.len() && i != node ==> #[trigger] m.with_outputs(node, outs).node_inputs(i)
                == m.node_inputs(i),
        forall|i: int|
            0 <= i < m.nodes.len() && i != node ==> #[trigger] m.with_outputs(node, outs).node_outputs(i)
                == m.node_outputs(i),
        forall|i: int|
            0 <= i < m.nodes.len() && i != node ==> #[trigger] m.with_outputs(node, outs).node_attrs(i)
                == m.node_attrs(i),
{
    let n = m.with_outputs(node, outs);
    assert(m.node_ok(node));
    assert forall|i: int| 0 <= i < n.nodes.len() implies #[trigger] n.node_ok(i) by {
        assert(m.node_ok(i));
    }
    assert forall|i: int| 0 <= i < n.values.len() implies #[trigger] n.value_ok(i) by {
        assert(m.value_ok(i));
    }
    assert(n.node_outputs(node) == outs);
    assert(n.node_inputs(node) == m.node_inputs(node));
    assert forall|i: int| 0 <= i < m.nodes.len() && i != node implies #[trigger] n.node_inputs(i)
        == m.node_inputs(i) by {
        assert(m.node_ok(i));
        assert(n.node_inputs(i) == m.node_inputs(i));
    }
    assert forall|i: int| 0 <= i < m.nodes.len() && i != node implies #[trigger] n.node_outputs(i)
        == m.node_outputs(i) by {
        assert(m.node_ok(i));
        assert(n.node_outputs(i) == m.node_outputs(i));
    }
    assert forall|i: int| 0 <= i < m.nodes.len() && i != node implies #[trigger] n.node_attrs(i)
        == m.node_attrs(i) by {
        assert(m.node_ok(i));
        assert(n.node_attrs(i) == m.node_attrs(i));
    }
}

/// Whether the next attribute of a node will stand right behind its others:
/// it has none yet, or the last entry of the pool is its own.
pub open spec fn attrs_open(m: StorageModel, node: int) -> bool {
    m.nodes[node].attrs_len == 0 || m.nodes[node].attrs_off + m.nodes[node].attrs_len
        == m.attrs.len()
}

/// An attribute whose data is laid out as its tag says.
pub open spec fn data_fits(tag: AttrTag, data: Seq<u8>) -> bool {
    &&& tag == AttrTag::Int || tag == AttrTag::Float ==> data.len() == 8
    &&& tag == AttrTag::Bool ==> data.len() == 1
}

/// An attribute added to a node comes last among its attributes, with its
/// data. The attributes of the other nodes, the data of every earlier entry,
/// and all operands stay as they were, and the node can take another one.
pub proof fn attr_read_back(m: StorageModel, node: int, key: AttrKey, tag: AttrTag, data: Seq<u8>)
    requires
        m.wf(),
        0 <= node < m.nodes.len(),
        m.attrs.len() < u32::MAX,
        m.attr_data.len() + data.len() <= u32::MAX,
        data_fits(tag, data),
        attrs_open(m, node),
    ensures
        m.with_attr(node, key, tag, data).wf(),
        attrs_open(m.with_attr(node, key, tag, data), node),
        m.with_attr(node, key, tag, data).node_attrs(node) == m.node_attrs(node).push(
            m.entry_for(key, tag, data),
        ),
        m.with_attr(node, key, tag, data).attr_bytes(m.entry_for(key, tag, data), data.len() as int)
            == data,
        forall|i: int|
            0 <= i < m.nodes.len() && i != node ==> #[trigger] m.with_attr(
                node,
                key,
                tag,
                data,
            ).node_attrs(i) == m.node_attrs(i),
        forall|i: int|
            0 <= i < m.attrs.len() ==> m.with_attr(node, key, tag, data).attr_bytes(
                #[trigger] m.attrs[i],
                m.attrs[i].data_len as int,
            ) == m.attr_bytes(m.attrs[i], m.attrs[i].data_len as int),
        forall|i: int|
            0 <= i < m.nodes.len() ==> #[trigger] m.with_attr(node, key, tag, data).node_inputs(i)
                == m.node_inputs(i) && m.with_attr(node, key, tag, data).node_outputs(i)
                == m.node_outputs(i),
{
    let n = m.with_attr(node, key, tag, data);
    let e = m.entry_for(key, tag, data);
    assert(m.node_ok(node));
    assert forall|i: int| 0 <= i < n.nodes.len() implies #[trigger] n.node_ok(i) by {
        assert(m.node_ok(i));
    }
    assert forall|i: int| 0 <= i < n.values.len() implies #[trigger] n.value_ok(i) by {
        assert(m.value_ok(i));
    }
    assert forall|i: int| 0 <= i < n.attrs.len() implies n.entry_ok(#[trigger] n.attrs[i]) by {
        if i < m.attrs.len() {
            assert(m.entry_ok(m.attrs[i]));
        }
    }
    assert(n.node_attrs(node) == m.node_attrs(node).push(e));
    assert(n.attr_bytes(e, data.len() as int) == data);
    assert forall|i: int| 0 <= i < m.nodes.len() && i != node implies #[trigger] n.node_attrs(i)
        == m.node_attrs(i) by {
        assert(m.node_ok(i));
        assert(n.node_attrs(i) == m.node_attrs(i));
    }
    assert forall|i: int| 0 <= i < m.attrs.len() implies n.attr_bytes(
        #[trigger] m.attrs[i],
        m.attrs[i].data_len as int,
    ) == m.attr_bytes(m.attrs[i], m.attrs[i].data_len as int) by {
        assert(m.entry_ok(m.attrs[i]));
        assert(n.attr_bytes(m.attrs[i], m.attrs[i].data_len as int) == m.attr_bytes(
            m.attrs[i],
            m.attrs[i].data_len as int,
        ));
    }
    assert forall|i: int| 0 <= i < m.nodes.len() implies #[trigger] n.node_inputs(i)
        == m.node_inputs(i) && n.node_outputs(i) == m.node_outputs(i) by {
        assert(n.node_inputs(i) == m.node_inputs(i));
        assert(n.node_outputs(i) == m.node_outputs(i));
    }
}

/// The data written for a signed number, a float, a flag, and for arrays of
/// numbers, holds what was written.
pub proof fn attr_data_holds_value(v: i64, f: u64, ints: Seq<i64>, floats: Seq<u64>)
    ensures
        signed(le_value(le_bytes(unsigned(v) as nat, 8)) as u64) == v,
        le_value(le_bytes(f as nat, 8)) == f,
        ints_of(unpack_words(pack_words(words_of(ints)))) == ints,
        unpack_words(pack_words(floats)) == floats,
{
    pow256_values();
    le_round_trip(unsigned(v) as nat, 8);
    le_round_trip(f as nat, 8);
    signed_round_trip(v);
    pack_round_trip(words_of(ints));
    words_round_trip(ints);
    pack_round_trip(floats);
}

/// No byte of the sequence is zero.
pub open spec fn without_nul(b: Seq<u8>) -> bool {
    forall|i: int| 0 <= i < b.len() ==> #[trigger] b[i] != 0
}

/// Characters other than NUL are encoded without a zero byte.
proof fn scalar_without_nul(c: char)
    requires
        c != '\0',
    ensures
        without_nul(encode_scalar(c as u32)),
{
    let u = c as u32;
    assert(u != 0);
    assert(0xC0u8 | (((u >> 6) & 0x1F) as u8) != 0) by (bit_vector);
    assert(0xE0u8 | (((u >> 12) & 0x0F) as u8) != 0) by (bit_vector);
    assert(0xF0u8 | (((u >> 18) & 0x7) as u8) != 0) by (bit_vector);
    assert(0x80u8 | ((u & 0x3F) as u8) != 0) by (bit_vector);
    assert(0x80u8 | (((u >> 6) & 0x3F) as u8) != 0) by (bit_vector);
    assert(0x80u8 | (((u >> 12) & 0x3F) as u8) != 0) by (bit_vector);
    if u <= 0x7F {
        assert((u & 0x7F) as u8 != 0) by (bit_vector)
            requires
                0 < u <= 0x7F,
        ;
    }
}

/// Text without the character NUL is encoded without a zero byte.
pub proof fn text_without_nul(s: Seq<char>)
    requires
        !s.contains('\0'),
    ensures
        without_nul(encode_utf8(s)),
    decreases s.len(),
{
    if s.len() > 0 {
        assert(s.contains(s[0]));
        scalar_without_nul(s[0]);
        assert(!s.drop_first().contains('\0')) by {
            if s.drop_first().contains('\0') {
                let i = choose|i: int| 0 <= i < s.drop_first().len() && s.drop_first()[i] == '\0';
                assert(s[i + 1] == '\0');
            }
        }
        text_without_nul(s.drop_first());
        let a = encode_scalar(s[0] as u32);
        let b = encode_utf8(s.drop_first());
        assert forall|i: int| 0 <= i < (a + b).len() implies #[trigger] (a + b)[i] != 0 by {
            if i < a.len() {
                assert((a + b)[i] == a[i]);
            } else {
                assert((a + b)[i] == b[i - a.len()]);
            }
        }
    }
}

/// Reading up to the first zero byte gives what stands before it.
proof fn until_nul_stops(b: Seq<u8>, rest: Seq<u8>)
    requires
        without_nul(b),
    ensures
        until_nul(b.push(0) + rest) == b,
    decreases b.len(),
{
    let all = b.push(0) + rest;
    if b.len() > 0 {
        assert(all[0] == b[0]);
        assert(without_nul(b.skip(1))) by {
            assert forall|i: int| 0 <= i < b.skip(1).len() implies #[trigger] b.skip(1)[i] != 0 by {
                assert(b.skip(1)[i] == b[i + 1]);
            }
        }
        until_nul_stops(b.skip(1), rest);
        assert(all.skip(1) == b.skip(1).push(0) + rest);
        assert(seq![b[0]] + b.skip(1) == b);
    } else {
        assert(all[0] == 0);
        assert(until_nul(all) == b);
    }
}

/// A name that stands in the pool, closed by a zero byte, is read.
pub proof fn name_is_read(m: StorageModel, v: int, before: Seq<u8>, name: Seq<char>, rest: Seq<u8>)
    requires
        without_nul(encode_utf8(name)),
        m.name_data == before + encode_utf8(name).push(0) + rest,
        m.values[v].name_off == before.len() < u32::MAX,
    ensures
        m.value_name(v) == Some(name),
{
    let b = encode_utf8(name);
    until_nul_stops(b, rest);
    assert(m.name_data.skip(before.len() as int) == b.push(0) + rest);
    vstd::utf8::encode_utf8_valid_utf8(name);
    vstd::utf8::encode_utf8_decode_utf8(name);
}

/// The shape and the name that a value was stored with are read back. Names
/// are closed by a zero byte, so a name that holds the character NUL is left
/// out; shapes have at most 255 dimensions. The shapes and names of the other
/// values stay as they were.
pub proof fn value_read_back(
    m: StorageModel,
    ty: TypeModel,
    name: Option<Seq<char>>,
    def: u32,
)
    requires
        m.wf(),
        m.values.len() < u32::MAX,
        ty.shape().len() <= 255,
        m.shape_data.len() + ty.shape().len() <= u32::MAX,
        m.with_name(name).name_data.len() <= u32::MAX,
        name is Some ==> !name->0.contains('\0'),
    ensures
        ({
            let n = m.with_typed(ty, name, def);
            let v = m.values.len() as int;
            &&& n.wf()
            &&& n.value_shape(v) == ty.shape()
            &&& n.value_name(v) == name
            &&& TypeTag::of_tag(n.values[v].type_tag) == Some(ty.type_tag())
            &&& n.value_type(v) == ty
            &&& n.values[v].def_node == def
            &&& forall|i: int|
                0 <= i < m.values.len() ==> #[trigger] n.value_shape(i) == m.value_shape(i)
        }),
{
    let n = m.with_typed(ty, name, def);
    let v = m.values.len() as int;
    assert forall|i: int| 0 <= i < n.nodes.len() implies #[trigger] n.node_ok(i) by {
        assert(m.node_ok(i));
    }
    assert forall|i: int| 0 <= i < n.values.len() implies #[trigger] n.value_ok(i) by {
        if i < v {
            assert(m.value_ok(i));
        }
    }
    assert(n.value_shape(v) == ty.shape());
    type_tag_round_trip(ty.type_tag(), TypeTag::of_tag(ty.type_tag().tag())->0);
    if let Some(s) = name {
        text_without_nul(s);
        assert(n.name_data == m.name_data + encode_utf8(s).push(0) + Seq::<u8>::empty());
        name_is_read(n, v, m.name_data, s, Seq::empty());
    }
    assert forall|i: int| 0 <= i < m.values.len() implies #[trigger] n.value_shape(i)
        == m.value_shape(i) by {
        assert(m.value_ok(i));
        assert(n.value_shape(i) == m.value_shape(i));
    }
}

/// The name of a value, if it has one, is closed: the pool ends with a zero byte
/// behind its start.
pub open spec fn name_closed(m: StorageModel, v: int) -> bool {
    m.values[v].name_off != u32::MAX ==> m.values[v].name_off < m.name_data.len()
        && m.name_data.last() == 0
}

/// Reading up to the first zero byte does not look past it.
proof fn until_nul_prefix(b: Seq<u8>, more: Seq<u8>)
    requires
        b.len() > 0,
        b.last() == 0,
    ensures
        until_nul(b + more) == until_nul(b),
    decreases b.len(),
{
    assert((b + more)[0] == b[0]);
    if b[0] != 0 {
        assert(b.skip(1).last() == b.last());
        until_nul_prefix(b.skip(1), more);
        assert((b + more).skip(1) == b.skip(1) + more);
    }
}

/// Whatever extends the pool of names and keeps where the name of a value
/// starts keeps that name; it stays closed if the extension is.
pub proof fn names_stay(m: StorageModel, n: StorageModel, v: int)
    requires
        name_closed(m, v),
        n.values[v].name_off == m.values[v].name_off,
        m.name_data.is_prefix_of(n.name_data),
    ensures
        n.value_name(v) == m.value_name(v),
        n.name_data.len() == m.name_data.len() || n.name_data.last() == 0 ==> name_closed(n, v),
{
    let off = m.values[v].name_off;
    if off != u32::MAX {
        let more = n.name_data.skip(m.name_data.len() as int);
        assert(n.name_data == m.name_data + more);
        assert(n.name_data.skip(off as int) == m.name_data.skip(off as int) + more);
        assert(m.name_data.skip(off as int).last() == 0);
        until_nul_prefix(m.name_data.skip(off as int), more);
        if n.name_data.len() == m.name_data.len() {
            assert(n.name_data == m.name_data);
        }
    }
}

/// A value that is given another shape has that shape; the shapes of the
/// other values stay as they were.
pub proof fn shape_is_replaced(m: StorageModel, v: int, dims: Seq<i64>)
    requires
        m.wf(),
        0 <= v < m.values.len(),
        dims.len() <= 255,
        m.shape_data.len() + dims.len() <= u32::MAX,
    ensures
        m.reshaped(v, dims).wf(),
        m.reshaped(v, dims).value_shape(v) == dims,
        m.reshaped(v, dims).value_name(v) == m.value_name(v),
        forall|i: int|
            0 <= i < m.values.len() && i != v ==> #[trigger] m.reshaped(v, dims).value_shape(i)
                == m.value_shape(i),
{
    let n = m.reshaped(v, dims);
    assert forall|i: int| 0 <= i < n.nodes.len() implies #[trigger] n.node_ok(i) by {
        assert(m.node_ok(i));
    }
    assert(m.value_ok(v));
    assert forall|i: int| 0 <= i < n.values.len() implies #[trigger] n.value_ok(i) by {
        assert(m.value_ok(i));
    }
    assert(n.value_shape(v) == dims);
    assert forall|i: int| 0 <= i < m.values.len() && i != v implies #[trigger] n.value_shape(i)
        == m.value_shape(i) by {
        assert(m.value_ok(i));
        assert(n.value_shape(i) == m.value_shape(i));
    }
}

} // verus!
