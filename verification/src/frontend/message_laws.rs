//! Messages are read as they are written.

use vstd::prelude::*;
use vstd::utf8::{encode_utf8, encode_utf8_decode_utf8, encode_utf8_valid_utf8};
use crate::base::ErrorModel;
use crate::bytes::{signed_round_trip, unsigned};
use crate::frontend::messages::{
    ModelInfoModel, NodeInfoModel, Parsed, graph_from, graph_known, model_from, model_of, node_from,
    node_known, numbers_from, value_name_from,
};
use crate::frontend::proto::{
    PayloadModel, field_at, field_moves_on, number_round_trip, text_field, varint_bytes,
    varint_moves_on,
};

verus! {

/// A field with a byte sequence as it is written: its number, with the mark of byte
/// sequences, the length, and the bytes.
pub open spec fn len_field(n: u32, b: Seq<u8>) -> Seq<u8> {
    varint_bytes((8 * n + 2) as nat) + varint_bytes(b.len()) + b
}

/// The bytes of a message with the given fields, in order.
pub open spec fn message(fs: Seq<(u32, Seq<u8>)>) -> Seq<u8>
    decreases fs.len(),
{
    if fs.len() == 0 {
        Seq::empty()
    } else {
        message(fs.drop_last()) + len_field(fs.last().0, fs.last().1)
    }
}

/// A field that was written is read back, and reading stops right behind it.
pub proof fn field_is_read_back(pre: Seq<u8>, n: u32, b: Seq<u8>, post: Seq<u8>, known: Seq<u32>)
    requires
        b.len() <= u64::MAX,
    ensures
        field_at(pre + len_field(n, b) + post, pre.len(), known) == Ok::<
            (u32, PayloadModel, nat),
            ErrorModel,
        >((n, PayloadModel::Len(b), pre.len() + len_field(n, b).len())),
{
    let d = pre + len_field(n, b) + post;
    let tag = (8 * n + 2) as u64;
    let t = varint_bytes(tag as nat);
    let l = varint_bytes(b.len());
    number_round_trip(pre, tag, l + b + post);
    assert(pre + t + (l + b + post) == d);
    number_round_trip(pre + t, b.len() as u64, b + post);
    assert((pre + t) + l + (b + post) == d);
    assert((tag / 8) as u32 == n && tag % 8 == 2);
    let start = (pre.len() + t.len() + l.len()) as int;
    assert(d.subrange(start, start + b.len()) == b);
}

/// A message without its last fields is a part of it.
proof fn message_in_parts(fs: Seq<(u32, Seq<u8>)>, k: nat) -> (rest: Seq<u8>)
    requires
        k < fs.len(),
    ensures
        message(fs) == message(fs.take(k as int)) + len_field(fs[k as int].0, fs[k as int].1) + rest,
        message(fs.take(k as int + 1)) == message(fs.take(k as int)) + len_field(
            fs[k as int].0,
            fs[k as int].1,
        ),
    decreases fs.len(),
{
    let a = fs.take(k as int + 1);
    assert(a.drop_last() == fs.take(k as int));
    assert(a.last() == fs[k as int]);
    if k == fs.len() - 1 {
        assert(fs.take(k as int) == fs.drop_last());
        assert(message(fs) == message(fs) + Seq::<u8>::empty());
        Seq::empty()
    } else {
        let front = fs.drop_last();
        let rest = message_in_parts(front, k);
        assert(front.take(k as int) == fs.take(k as int));
        assert(front[k as int] == fs[k as int]);
        let last = len_field(fs.last().0, fs.last().1);
        assert(message(fs) == message(fs.take(k as int)) + len_field(fs[k as int].0, fs[k as int].1)
            + (rest + last));
        rest + last
    }
}

/// A field takes room.
proof fn field_takes_room(n: u32, b: Seq<u8>)
    requires
        b.len() <= u64::MAX,
    ensures
        len_field(n, b).len() > 0,
{
    let none = Seq::<u8>::empty();
    field_is_read_back(none, n, b, none, Seq::empty());
    field_moves_on(none + len_field(n, b) + none, 0, Seq::empty());
}

/// Whether the byte sequences of fields have lengths that can be written.
pub open spec fn lengths_fit(fs: Seq<(u32, Seq<u8>)>) -> bool {
    forall|i: int| 0 <= i < fs.len() ==> (#[trigger] fs[i]).1.len() <= u64::MAX
}

/// What a node is after more fields were read, in order.
spec fn node_with(x: NodeInfoModel, fs: Seq<(u32, Seq<u8>)>, k: nat) -> Parsed<NodeInfoModel>
    decreases fs.len() - k,
{
    if k >= fs.len() {
        Ok(x)
    } else {
        match x.with(fs[k as int].0, PayloadModel::Len(fs[k as int].1)) {
            Ok(y) => node_with(y, fs, k + 1),
            Err(e) => Err(e),
        }
    }
}

proof fn node_reads_fields(x: NodeInfoModel, fs: Seq<(u32, Seq<u8>)>, k: nat)
    requires
        k <= fs.len(),
        lengths_fit(fs),
    ensures
        node_from(message(fs), message(fs.take(k as int)).len(), x) == node_with(x, fs, k),
    decreases fs.len() - k,
{
    let d = message(fs);
    let i = message(fs.take(k as int)).len();
    if k < fs.len() {
        let (n, b) = fs[k as int];
        assert(fs[k as int].1.len() <= u64::MAX);
        let rest = message_in_parts(fs, k);
        field_is_read_back(message(fs.take(k as int)), n, b, rest, node_known());
        field_takes_room(n, b);
        field_moves_on(d, i, node_known());
        if let Ok(y) = x.with(n, PayloadModel::Len(b)) {
            node_reads_fields(y, fs, k + 1);
        }
    } else {
        assert(fs.take(k as int) == fs);
    }
}

/// Texts as fields under one number.
pub open spec fn text_fields(n: u32, names: Seq<Seq<char>>) -> Seq<(u32, Seq<u8>)> {
    Seq::new(names.len(), |i: int| (n, encode_utf8(names[i])))
}

proof fn text_is_read(s: Seq<char>)
    ensures
        text_field(encode_utf8(s)) == Ok::<Seq<char>, ErrorModel>(s),
{
    encode_utf8_valid_utf8(s);
    encode_utf8_decode_utf8(s);
}

/// The fields of a node: its inputs, its outputs, and its operator.
pub open spec fn node_fields(inputs: Seq<Seq<char>>, outputs: Seq<Seq<char>>, op: Seq<char>) -> Seq<
    (u32, Seq<u8>),
> {
    text_fields(1, inputs) + text_fields(2, outputs) + text_fields(3, seq![op])
}

proof fn node_takes_texts(
    inputs: Seq<Seq<char>>,
    outputs: Seq<Seq<char>>,
    op: Seq<char>,
    k: nat,
)
    requires
        k <= inputs.len() + outputs.len() + 1,
    ensures
        ({
            let fs = node_fields(inputs, outputs, op);
            let a = inputs.len();
            let b = a + outputs.len();
            let x = NodeInfoModel {
                op_type: if k > b {
                    op
                } else {
                    Seq::empty()
                },
                inputs: if k <= a {
                    inputs.take(k as int)
                } else {
                    inputs
                },
                outputs: if k <= a {
                    Seq::empty()
                } else if k <= b {
                    outputs.take(k - a)
                } else {
                    outputs
                },
                attributes: Seq::empty(),
            };
            node_with(x, fs, k) == Ok::<NodeInfoModel, ErrorModel>(
                NodeInfoModel { op_type: op, inputs, outputs, attributes: Seq::empty() },
            )
        }),
    decreases inputs.len() + outputs.len() + 1 - k,
{
    let fs = node_fields(inputs, outputs, op);
    let a = inputs.len();
    let b = a + outputs.len();
    if k < b + 1 {
        node_takes_texts(inputs, outputs, op, k + 1);
        if k < a {
            text_is_read(inputs[k as int]);
            assert(fs[k as int] == (1u32, encode_utf8(inputs[k as int])));
            assert(inputs.take(k as int).push(inputs[k as int]) == inputs.take(k as int + 1));
            if k + 1 == a {
                assert(inputs.take(k as int + 1) == inputs);
            }
        } else if k < b {
            let j = k - a;
            text_is_read(outputs[j]);
            assert(fs[k as int] == (2u32, encode_utf8(outputs[j])));
            assert(outputs.take(j).push(outputs[j]) == outputs.take(j + 1));
            assert(inputs.take(a as int) == inputs);
            assert(outputs.take(0) == Seq::<Seq<char>>::empty());
            if k + 1 == b {
                assert(outputs.take(j + 1) == outputs);
            }
        } else {
            text_is_read(op);
            assert(fs[k as int] == (3u32, encode_utf8(op)));
            assert(inputs.take(a as int) == inputs);
            assert(outputs.take(outputs.len() as int) == outputs);
            assert(outputs.take(0) == Seq::<Seq<char>>::empty());
        }
    } else {
        assert(fs.len() == b + 1);
    }
}

/// Whether texts have lengths that can be written.
pub open spec fn texts_fit(names: Seq<Seq<char>>) -> bool {
    forall|i: int| 0 <= i < names.len() ==> encode_utf8(#[trigger] names[i]).len() <= u64::MAX
}

/// A node is read as it is written: all its inputs and all its outputs, in order, and
/// its operator.
pub proof fn node_is_read_back(inputs: Seq<Seq<char>>, outputs: Seq<Seq<char>>, op: Seq<char>)
    requires
        texts_fit(inputs),
        texts_fit(outputs),
        encode_utf8(op).len() <= u64::MAX,
    ensures
        node_from(message(node_fields(inputs, outputs, op)), 0, NodeInfoModel::none()) == Ok::<
            NodeInfoModel,
            ErrorModel,
        >(NodeInfoModel { op_type: op, inputs, outputs, attributes: Seq::empty() }),
{
    let fs = node_fields(inputs, outputs, op);
    assert forall|i: int| 0 <= i < fs.len() implies (#[trigger] fs[i]).1.len() <= u64::MAX by {
        if i < inputs.len() {
            assert(fs[i].1 == encode_utf8(inputs[i]));
        } else if i < inputs.len() + outputs.len() {
            assert(fs[i].1 == encode_utf8(outputs[i - inputs.len()]));
        } else {
            assert(fs[i].1 == encode_utf8(op));
        }
    }
    assert(fs.take(0) == Seq::<(u32, Seq<u8>)>::empty());
    node_reads_fields(NodeInfoModel::none(), fs, 0);
    node_takes_texts(inputs, outputs, op, 0);
    assert(inputs.take(0) == Seq::<Seq<char>>::empty());
    if inputs.len() == 0 {
        assert(inputs == Seq::<Seq<char>>::empty());
    }
}

/// What a model is after more fields were read, in order.
pub open spec fn model_with(m: ModelInfoModel, fs: Seq<(u32, Seq<u8>)>, k: nat) -> Parsed<ModelInfoModel>
    decreases fs.len() - k,
{
    if k >= fs.len() {
        Ok(m)
    } else {
        match m.with(fs[k as int].0, PayloadModel::Len(fs[k as int].1)) {
            Ok(x) => model_with(x, fs, k + 1),
            Err(e) => Err(e),
        }
    }
}

proof fn graph_reads_fields(m: ModelInfoModel, fs: Seq<(u32, Seq<u8>)>, k: nat)
    requires
        k <= fs.len(),
        lengths_fit(fs),
    ensures
        graph_from(message(fs), message(fs.take(k as int)).len(), m) == model_with(m, fs, k),
    decreases fs.len() - k,
{
    let d = message(fs);
    let i = message(fs.take(k as int)).len();
    if k < fs.len() {
        let (n, b) = fs[k as int];
        assert(fs[k as int].1.len() <= u64::MAX);
        let rest = message_in_parts(fs, k);
        field_is_read_back(message(fs.take(k as int)), n, b, rest, graph_known());
        field_takes_room(n, b);
        field_moves_on(d, i, graph_known());
        if let Ok(x) = m.with(n, PayloadModel::Len(b)) {
            graph_reads_fields(x, fs, k + 1);
        }
    } else {
        assert(fs.take(k as int) == fs);
    }
}

/// The description of a value with a name.
pub open spec fn value_message(name: Seq<char>) -> Seq<u8> {
    message(seq![(1u32, encode_utf8(name))])
}

/// A description of a value is read as its name.
proof fn value_is_read_back(name: Seq<char>)
    requires
        encode_utf8(name).len() <= u64::MAX,
    ensures
        value_name_from(value_message(name), 0, None) == Ok::<Option<Seq<char>>, ErrorModel>(Some(name)),
{
    let b = encode_utf8(name);
    let fs = seq![(1u32, b)];
    let none = Seq::<u8>::empty();
    let d = value_message(name);
    assert(fs.drop_last() == Seq::<(u32, Seq<u8>)>::empty());
    assert(message(fs.drop_last()) == none);
    assert(d == none + len_field(1, b) + none);
    field_is_read_back(none, 1, b, none, seq![1u32]);
    field_takes_room(1, b);
    text_is_read(name);
    assert(value_name_from(d, d.len(), Some(name)) == Ok::<Option<Seq<char>>, ErrorModel>(Some(name)));
}

/// The fields of a graph: its name, its nodes, its inputs and its outputs.
pub open spec fn graph_fields(
    name: Seq<char>,
    nodes: Seq<Seq<u8>>,
    inputs: Seq<Seq<char>>,
    outputs: Seq<Seq<char>>,
) -> Seq<(u32, Seq<u8>)> {
    seq![(2u32, encode_utf8(name))] + Seq::new(nodes.len(), |i: int| (1u32, nodes[i])) + Seq::new(
        inputs.len(),
        |i: int| (11u32, value_message(inputs[i])),
    ) + Seq::new(outputs.len(), |i: int| (12u32, value_message(outputs[i])))
}

/// The first `k` of a sequence, none if `k` is not positive and all if it is past
/// the end.
spec fn first_of<A>(s: Seq<A>, k: int) -> Seq<A> {
    if k <= 0 {
        Seq::empty()
    } else if k >= s.len() {
        s
    } else {
        s.take(k)
    }
}

proof fn first_grows<A>(s: Seq<A>, k: int)
    ensures
        0 <= k < s.len() ==> first_of(s, k + 1) == first_of(s, k).push(s[k]),
        k < 0 ==> first_of(s, k + 1) == first_of(s, k),
        k >= s.len() ==> first_of(s, k + 1) == first_of(s, k),
{
    if 0 <= k < s.len() {
        assert(first_of(s, k + 1) =~= first_of(s, k).push(s[k]));
    } else if k == -1 {
        assert(first_of(s, 0) =~= Seq::<A>::empty());
    }
}

/// A graph after the first `k` of its fields.
spec fn graph_so_far(
    name: Seq<char>,
    nodes: Seq<NodeInfoModel>,
    inputs: Seq<Seq<char>>,
    outputs: Seq<Seq<char>>,
    k: int,
) -> ModelInfoModel {
    ModelInfoModel {
        graph_name: if k > 0 {
            Some(name)
        } else {
            None
        },
        nodes: first_of(nodes, k - 1),
        inputs: first_of(inputs, k - 1 - nodes.len()),
        outputs: first_of(outputs, k - 1 - nodes.len() - inputs.len()),
        initializers: Seq::empty(),
    }
}

/// The fields of a graph, by their places.
proof fn field_of_graph(
    name: Seq<char>,
    bytes: Seq<Seq<u8>>,
    inputs: Seq<Seq<char>>,
    outputs: Seq<Seq<char>>,
    k: int,
)
    requires
        0 <= k < 1 + bytes.len() + inputs.len() + outputs.len(),
    ensures
        ({
            let fs = graph_fields(name, bytes, inputs, outputs);
            let i = k - 1;
            let j = i - bytes.len();
            let l = j - inputs.len();
            &&& fs.len() == 1 + bytes.len() + inputs.len() + outputs.len()
            &&& fs[k] == if k == 0 {
                (2u32, encode_utf8(name))
            } else if j < 0 {
                (1u32, bytes[i])
            } else if l < 0 {
                (11u32, value_message(inputs[j]))
            } else {
                (12u32, value_message(outputs[l]))
            }
        }),
{
}

/// One more field of a graph.
proof fn graph_takes_field(
    name: Seq<char>,
    b: Seq<u8>,
    nodes: Seq<NodeInfoModel>,
    inputs: Seq<Seq<char>>,
    outputs: Seq<Seq<char>>,
    k: int,
)
    requires
        0 <= k < 1 + nodes.len() + inputs.len() + outputs.len(),
        texts_fit(inputs),
        texts_fit(outputs),
        0 < k <= nodes.len() ==> node_from(b, 0, NodeInfoModel::none()) == Ok::<
            NodeInfoModel,
            ErrorModel,
        >(nodes[k - 1]),
    ensures
        ({
            let before = graph_so_far(name, nodes, inputs, outputs, k);
            let after = graph_so_far(name, nodes, inputs, outputs, k + 1);
            let i = k - 1;
            let j = i - nodes.len();
            let l = j - inputs.len();
            let (n, d) = if k == 0 {
                (2u32, encode_utf8(name))
            } else if j < 0 {
                (1u32, b)
            } else if l < 0 {
                (11u32, value_message(inputs[j]))
            } else {
                (12u32, value_message(outputs[l]))
            };
            before.with(n, PayloadModel::Len(d)) == Ok::<ModelInfoModel, ErrorModel>(after)
        }),
{
    let i = k - 1;
    let j = i - nodes.len();
    let l = j - inputs.len();
    first_grows(nodes, i);
    first_grows(inputs, j);
    first_grows(outputs, l);
    if k == 0 {
        text_is_read(name);
    } else if j < 0 {
    } else if l < 0 {
        assert(encode_utf8(inputs[j]).len() <= u64::MAX);
        value_is_read_back(inputs[j]);
    } else {
        assert(encode_utf8(outputs[l]).len() <= u64::MAX);
        value_is_read_back(outputs[l]);
    }
}

/// Whether reading a field leads from one state to the next.
#[verifier::opaque]
spec fn leads(m: ModelInfoModel, f: (u32, Seq<u8>), y: ModelInfoModel) -> bool {
    m.with(f.0, PayloadModel::Len(f.1)) == Ok::<ModelInfoModel, ErrorModel>(y)
}

/// Reading fields goes from state to state.
proof fn states_follow(fs: Seq<(u32, Seq<u8>)>, ms: Seq<ModelInfoModel>, k: nat)
    requires
        k <= fs.len(),
        ms.len() == fs.len() + 1,
        forall|i: int| 0 <= i < fs.len() ==> leads(ms[i], #[trigger] fs[i], ms[i + 1]),
    ensures
        model_with(ms[k as int], fs, k) == Ok::<ModelInfoModel, ErrorModel>(ms[fs.len() as int]),
    decreases fs.len() - k,
{
    reveal(leads);
    if k < fs.len() {
        assert(leads(ms[k as int], fs[k as int], ms[k as int + 1]));
        states_follow(fs, ms, k + 1);
    }
}

proof fn graph_takes_fields(
    name: Seq<char>,
    bytes: Seq<Seq<u8>>,
    nodes: Seq<NodeInfoModel>,
    inputs: Seq<Seq<char>>,
    outputs: Seq<Seq<char>>,
)
    requires
        bytes.len() == nodes.len(),
        forall|i: int|
            0 <= i < nodes.len() ==> node_from(#[trigger] bytes[i], 0, NodeInfoModel::none()) == Ok::<
                NodeInfoModel,
                ErrorModel,
            >(nodes[i]),
        texts_fit(inputs),
        texts_fit(outputs),
    ensures
        ({
            let fs = graph_fields(name, bytes, inputs, outputs);
            model_with(graph_so_far(name, nodes, inputs, outputs, 0), fs, 0) == Ok::<
                ModelInfoModel,
                ErrorModel,
            >(graph_so_far(name, nodes, inputs, outputs, fs.len() as int))
        }),
{
    let fs = graph_fields(name, bytes, inputs, outputs);
    let ms = Seq::new(fs.len() + 1, |k: int| graph_so_far(name, nodes, inputs, outputs, k));
    assert(fs.len() == 1 + nodes.len() + inputs.len() + outputs.len());
    assert forall|k: int| 0 <= k < fs.len() implies leads(ms[k], #[trigger] fs[k], ms[k + 1]) by {
        reveal(leads);
        let b = if 0 < k <= nodes.len() {
            bytes[k - 1]
        } else {
            Seq::empty()
        };
        field_of_graph(name, bytes, inputs, outputs, k);
        graph_takes_field(name, b, nodes, inputs, outputs, k);
    }
    states_follow(fs, ms, 0);
}

proof fn all_fields_taken(
    name: Seq<char>,
    nodes: Seq<NodeInfoModel>,
    inputs: Seq<Seq<char>>,
    outputs: Seq<Seq<char>>,
)
    ensures
        graph_so_far(
            name,
            nodes,
            inputs,
            outputs,
            (1 + nodes.len() + inputs.len() + outputs.len()) as int,
        ) == (ModelInfoModel {
            graph_name: Some(name),
            nodes,
            inputs,
            outputs,
            initializers: Seq::empty(),
        }),
{
    assert(first_of(nodes, (nodes.len() + inputs.len() + outputs.len()) as int) =~= nodes);
    assert(first_of(inputs, (inputs.len() + outputs.len()) as int) =~= inputs);
    assert(first_of(outputs, outputs.len() as int) =~= outputs);
}

/// A graph is read as it is written: its name, all its nodes, all its inputs and
/// all its outputs, each in order.
pub proof fn graph_is_read_back(
    name: Seq<char>,
    bytes: Seq<Seq<u8>>,
    nodes: Seq<NodeInfoModel>,
    inputs: Seq<Seq<char>>,
    outputs: Seq<Seq<char>>,
)
    requires
        bytes.len() == nodes.len(),
        forall|i: int|
            0 <= i < nodes.len() ==> node_from(#[trigger] bytes[i], 0, NodeInfoModel::none()) == Ok::<
                NodeInfoModel,
                ErrorModel,
            >(nodes[i]),
        texts_fit(inputs),
        texts_fit(outputs),
        lengths_fit(graph_fields(name, bytes, inputs, outputs)),
    ensures
        graph_from(message(graph_fields(name, bytes, inputs, outputs)), 0, ModelInfoModel::none())
            == Ok::<ModelInfoModel, ErrorModel>(
            ModelInfoModel {
                graph_name: Some(name),
                nodes,
                inputs,
                outputs,
                initializers: Seq::empty(),
            },
        ),
{
    let fs = graph_fields(name, bytes, inputs, outputs);
    assert(fs.take(0) == Seq::<(u32, Seq<u8>)>::empty());
    graph_reads_fields(ModelInfoModel::none(), fs, 0);
    graph_takes_fields(name, bytes, nodes, inputs, outputs);
    assert(graph_so_far(name, nodes, inputs, outputs, 0) == ModelInfoModel::none());
    all_fields_taken(name, nodes, inputs, outputs);
}

/// A model is read as the graph that it holds, the last one if it holds several.
pub proof fn model_holds_graph(g: Seq<u8>, m: ModelInfoModel)
    requires
        g.len() <= u64::MAX,
        graph_from(g, 0, ModelInfoModel::none()) == Ok::<ModelInfoModel, ErrorModel>(m),
    ensures
        model_of(len_field(7, g)) == Ok::<ModelInfoModel, ErrorModel>(m),
{
    let none = Seq::<u8>::empty();
    let d = len_field(7, g);
    assert(d == none + len_field(7, g) + none);
    field_is_read_back(none, 7, g, none, seq![7u32]);
    field_takes_room(7, g);
    assert(model_from(d, d.len(), m) == Ok::<ModelInfoModel, ErrorModel>(m));
}

/// Numbers, one behind the other.
pub open spec fn packed(v: Seq<i64>) -> Seq<u8>
    decreases v.len(),
{
    if v.len() == 0 {
        Seq::empty()
    } else {
        varint_bytes(unsigned(v[0]) as nat) + packed(v.skip(1))
    }
}

proof fn packed_are_read(pre: Seq<u8>, v: Seq<i64>, acc: Seq<i64>)
    ensures
        numbers_from(pre + packed(v), pre.len(), acc) == Ok::<Seq<i64>, ErrorModel>(acc + v),
    decreases v.len(),
{
    let d = pre + packed(v);
    if v.len() > 0 {
        let w = unsigned(v[0]);
        let b = varint_bytes(w as nat);
        number_round_trip(pre, w, packed(v.skip(1)));
        assert(pre + b + packed(v.skip(1)) == d);
        varint_moves_on(d, pre.len(), 0);
        signed_round_trip(v[0]);
        packed_are_read(pre + b, v.skip(1), acc.push(v[0]));
        assert(acc.push(v[0]) + v.skip(1) == acc + v);
    } else {
        assert(acc + v == acc);
        assert(d == pre);
    }
}

/// Numbers that are written one behind the other are read back, all of them and in
/// order, behind those that were read before.
pub proof fn numbers_are_unpacked(v: Seq<i64>, acc: Seq<i64>)
    ensures
        numbers_from(packed(v), 0, acc) == Ok::<Seq<i64>, ErrorModel>(acc + v),
{
    packed_are_read(Seq::empty(), v, acc);
    assert(Seq::<u8>::empty() + packed(v) == packed(v));
}

} // verus!
