//! What the packed storage promises over many calls: names, attributes, shapes
//! and operands are read back whatever else was stored in between.

use vstd::prelude::*;
use vstd::utf8::encode_utf8;
use crate::storage::{AttrEntry, AttrKey, AttrTag, StorageModel, ValueHeader};
use crate::storage_laws::{name_closed, name_is_read, names_stay, text_without_nul};

verus! {

/// A call that changes the storage.
pub enum Call {
    AllocNode(u8),
    AllocValue(ValueHeader),
    SetNodeInputs(u32, Seq<u32>),
    SetNodeOutputs(u32, Seq<u32>),
    AddAttr { node: u32, key: AttrKey, tag: AttrTag, data: Seq<u8> },
    AddShape(Seq<i64>),
    SetValueShape(u32, Seq<i64>),
    AddName(Option<Seq<char>>),
}

impl Call {
    /// Whether the call adds an attribute.
    pub open spec fn adds_attr(self) -> bool {
        self is AddAttr
    }

    /// Whether the call adds an attribute to the given node.
    pub open spec fn adds_attr_to(self, node: u32) -> bool {
        self is AddAttr && self->node == node
    }
}

impl StorageModel {
    /// Whether a call can be made: it is about a node or a value that is there,
    /// and the number of attributes of the node fits its type.
    pub open spec fn takes(self, call: Call) -> bool {
        match call {
            Call::SetNodeInputs(n, _) => n < self.nodes.len(),
            Call::SetNodeOutputs(n, _) => n < self.nodes.len(),
            Call::AddAttr { node, .. } => node < self.nodes.len() && self.nodes[node as int].attrs_len
                < u32::MAX,
            Call::SetValueShape(v, _) => v < self.values.len(),
            _ => true,
        }
    }

    /// The storage after a call.
    pub open spec fn after(self, call: Call) -> StorageModel {
        match call {
            Call::AllocNode(op_tag) => self.with_node(op_tag),
            Call::AllocValue(h) => self.with_value(h),
            Call::SetNodeInputs(n, ins) => self.with_inputs(n as int, ins),
            Call::SetNodeOutputs(n, outs) => self.with_outputs(n as int, outs),
            Call::AddAttr { node, key, tag, data } => self.with_attr(node as int, key, tag, data),
            Call::AddShape(dims) => self.with_shape(dims),
            Call::SetValueShape(v, dims) => self.reshaped(v as int, dims),
            Call::AddName(name) => self.with_name(name),
        }
    }

    /// The storage after several calls.
    pub open spec fn after_all(self, calls: Seq<Call>) -> StorageModel
        decreases calls.len(),
    {
        if calls.len() == 0 {
            self
        } else {
            self.after_all(calls.drop_last()).after(calls.last())
        }
    }

    /// Whether several calls can be made, one after the other.
    pub open spec fn takes_all(self, calls: Seq<Call>) -> bool
        decreases calls.len(),
    {
        calls.len() > 0 ==> self.takes_all(calls.drop_last()) && self.after_all(calls.drop_last()).takes(
            calls.last(),
        )
    }

    /// The entries that calls add to a node, in order.
    pub open spec fn entries_added(self, calls: Seq<Call>, node: u32) -> Seq<AttrEntry>
        decreases calls.len(),
    {
        if calls.len() == 0 {
            Seq::empty()
        } else {
            let before = self.entries_added(calls.drop_last(), node);
            match calls.last() {
                Call::AddAttr { node: n, key, tag, data } => if n == node {
                    before.push(self.after_all(calls.drop_last()).entry_for(key, tag, data))
                } else {
                    before
                },
                _ => before,
            }
        }
    }
}

/// The calls that add attributes to a node, in order.
pub open spec fn attr_calls(calls: Seq<Call>, node: u32) -> Seq<Call>
    decreases calls.len(),
{
    if calls.len() == 0 {
        Seq::empty()
    } else if calls.last().adds_attr_to(node) {
        attr_calls(calls.drop_last(), node).push(calls.last())
    } else {
        attr_calls(calls.drop_last(), node)
    }
}

/// Whether no attribute of another node is added between those of a node.
pub open spec fn stand_together(calls: Seq<Call>, node: u32) -> bool {
    forall|i: int, j: int, k: int|
        0 <= i < j < k < calls.len() && (#[trigger] calls[i]).adds_attr_to(node) && (
        #[trigger] calls[j]).adds_attr() && (#[trigger] calls[k]).adds_attr_to(node)
            ==> calls[j].adds_attr_to(node)
}

/// A call keeps the name of a value that is there, and it stays closed.
proof fn call_keeps_name(m: StorageModel, call: Call, v: int)
    requires
        m.takes(call),
        0 <= v < m.values.len(),
        name_closed(m, v),
    ensures
        v < m.after(call).values.len(),
        name_closed(m.after(call), v),
        m.after(call).value_name(v) == m.value_name(v),
{
    let n = m.after(call);
    assert(n.values[v].name_off == m.values[v].name_off);
    let more = match call {
        Call::AddName(Some(s)) => encode_utf8(s).push(0),
        _ => Seq::<u8>::empty(),
    };
    assert(n.name_data == m.name_data + more);
    names_stay(m, n, v);
}

/// The name of a value stays as it is, whatever calls follow.
pub proof fn name_stays(m: StorageModel, calls: Seq<Call>, v: int)
    requires
        m.takes_all(calls),
        0 <= v < m.values.len(),
        name_closed(m, v),
    ensures
        v < m.after_all(calls).values.len(),
        name_closed(m.after_all(calls), v),
        m.after_all(calls).value_name(v) == m.value_name(v),
    decreases calls.len(),
{
    if calls.len() > 0 {
        name_stays(m, calls.drop_last(), v);
        call_keeps_name(m.after_all(calls.drop_last()), calls.last(), v);
    }
}

/// A name that was added, and that a value was then allocated with, is read
/// back whatever calls follow: the empty name and no name are told apart, and
/// no name runs into the next. A name that holds the character NUL is left out.
pub proof fn name_read_back(m: StorageModel, name: Option<Seq<char>>, h: ValueHeader, calls: Seq<Call>)
    requires
        name is Some ==> !name->0.contains('\0'),
        m.with_name(name).name_data.len() <= u32::MAX,
        h.name_off == m.next_name(name),
        m.with_name(name).with_value(h).takes_all(calls),
    ensures
        m.with_name(name).with_value(h).after_all(calls).name_ok(m.values.len() as int),
        m.with_name(name).with_value(h).after_all(calls).value_name(m.values.len() as int) == name,
{
    let n = m.with_name(name).with_value(h);
    let v = m.values.len() as int;
    if let Some(s) = name {
        text_without_nul(s);
        assert(n.name_data == m.name_data + encode_utf8(s).push(0));
        name_is_read(n, v, m.name_data, s, Seq::empty());
    }
    name_stays(n, calls, v);
}

/// Whether a node has no attributes yet.
pub open spec fn bare(m: StorageModel, node: u32) -> bool {
    m.nodes[node as int].attrs_len == 0 && m.nodes[node as int].attrs_off <= m.attrs.len()
}

/// The attributes of a node after calls: they stand in the pool, and at its end
/// unless an attribute of another node came after one of them.
spec fn attrs_stand(n: StorageModel, calls: Seq<Call>, node: u32, added: Seq<AttrEntry>) -> bool {
    let h = n.nodes[node as int];
    &&& h.attrs_off + h.attrs_len <= n.attrs.len()
    &&& h.attrs_len == added.len()
    &&& n.node_attrs(node as int) == added
    &&& h.attrs_len == 0 || h.attrs_off + h.attrs_len == n.attrs.len() || (exists|i: int, j: int|
        0 <= i < j < calls.len() && (#[trigger] calls[i]).adds_attr_to(node) && (
        #[trigger] calls[j]).adds_attr() && !calls[j].adds_attr_to(node))
    &&& h.attrs_len > 0 ==> exists|i: int|
        0 <= i < calls.len() && (#[trigger] calls[i]).adds_attr_to(node)
}

/// Every call keeps the attributes of a node where they stand.
proof fn attrs_so_far(m: StorageModel, calls: Seq<Call>, node: u32)
    requires
        node < m.nodes.len() ==> bare(m, node),
        m.takes_all(calls),
        m.after_all(calls).attrs.len() <= u32::MAX,
        stand_together(calls, node),
    ensures
        ({
            let n = m.after_all(calls);
            &&& node >= n.nodes.len() ==> m.entries_added(calls, node).len() == 0
            &&& node < n.nodes.len() ==> attrs_stand(n, calls, node, m.entries_added(calls, node))
        }),
    decreases calls.len(),
{
    if calls.len() == 0 {
        if node < m.nodes.len() {
            assert(m.node_attrs(node as int) == Seq::<AttrEntry>::empty());
        }
    } else {
        let front = calls.drop_last();
        let last = calls.last();
        let b = m.after_all(front);
        let n = m.after_all(calls);
        assert(b.attrs.len() <= n.attrs.len());
        assert(stand_together(front, node)) by {
            assert forall|i: int, j: int, k: int|
                0 <= i < j < k < front.len() && (#[trigger] front[i]).adds_attr_to(node) && (
                #[trigger] front[j]).adds_attr() && (#[trigger] front[k]).adds_attr_to(
                    node,
                ) implies front[j].adds_attr_to(node) by {
                assert(calls[i] == front[i] && calls[j] == front[j] && calls[k] == front[k]);
            }
        }
        attrs_so_far(m, front, node);
        let h = b.nodes[node as int];
        assert forall|i: int| 0 <= i < front.len() implies #[trigger] calls[i] == front[i] by {}
        if node >= b.nodes.len() {
            if node < n.nodes.len() {
                assert(n.node_attrs(node as int) == Seq::<AttrEntry>::empty());
                assert(m.entries_added(calls, node) == Seq::<AttrEntry>::empty());
            }
        } else if last.adds_attr_to(node) {
            if h.attrs_len > 0 && h.attrs_off + h.attrs_len != b.attrs.len() {
                let (i, j) = choose|i: int, j: int|
                    0 <= i < j < front.len() && (#[trigger] front[i]).adds_attr_to(node) && (
                    #[trigger] front[j]).adds_attr() && !front[j].adds_attr_to(node);
                assert(calls[i].adds_attr_to(node) && calls[j].adds_attr());
                assert(calls[calls.len() - 1].adds_attr_to(node));
                assert(false);
            }
            assert(n.node_attrs(node as int) == m.entries_added(calls, node));
            assert(calls[calls.len() - 1].adds_attr_to(node));
        } else {
            assert(n.nodes[node as int].attrs_off == h.attrs_off);
            assert(n.nodes[node as int].attrs_len == h.attrs_len);
            assert(n.node_attrs(node as int) == b.node_attrs(node as int));
            if h.attrs_len > 0 {
                let i = choose|i: int| 0 <= i < front.len() && (#[trigger] front[i]).adds_attr_to(node);
                assert(calls[i].adds_attr_to(node));
                if last.adds_attr() {
                    assert(calls[calls.len() - 1].adds_attr());
                } else if h.attrs_off + h.attrs_len != b.attrs.len() {
                    let (i, j) = choose|i: int, j: int|
                        0 <= i < j < front.len() && (#[trigger] front[i]).adds_attr_to(node) && (
                        #[trigger] front[j]).adds_attr() && !front[j].adds_attr_to(node);
                    assert(calls[i].adds_attr_to(node) && calls[j].adds_attr());
                }
            }
        }
    }
}

/// The entries that calls add carry the keys and the layouts of the calls, and
/// their data stays in the pool.
proof fn entries_match_calls(m: StorageModel, calls: Seq<Call>, node: u32)
    ensures
        m.entries_added(calls, node).len() == attr_calls(calls, node).len(),
        forall|i: int|
            0 <= i < attr_calls(calls, node).len() ==> entry_matches(
                m.after_all(calls),
                m.entries_added(calls, node)[i],
                #[trigger] attr_calls(calls, node)[i],
            ),
    decreases calls.len(),
{
    if calls.len() > 0 {
        let front = calls.drop_last();
        let b = m.after_all(front);
        let n = m.after_all(calls);
        assert(b.attr_data.len() <= n.attr_data.len());
        entries_match_calls(m, front, node);
        assert forall|i: int| 0 <= i < attr_calls(calls, node).len() implies entry_matches(
            n,
            m.entries_added(calls, node)[i],
            #[trigger] attr_calls(calls, node)[i],
        ) by {
            let e = m.entries_added(calls, node)[i];
            let c = attr_calls(calls, node)[i];
            if i < attr_calls(front, node).len() {
                assert(entry_matches(b, m.entries_added(front, node)[i], attr_calls(front, node)[i]));
                if n.attr_data.len() <= u32::MAX {
                    assert(n.attr_bytes(e, e.data_len as int) == b.attr_bytes(e, e.data_len as int));
                }
            } else {
                assert(c == calls.last());
                if n.attr_data.len() <= u32::MAX {
                    assert(n.attr_bytes(e, e.data_len as int) == c->data);
                }
            }
        }
    }
}

/// Whether an entry has the key and the layout of the call that added it, and its
/// data too if the pool of data is within the range of offsets.
pub open spec fn entry_matches(m: StorageModel, e: AttrEntry, call: Call) -> bool {
    &&& call is AddAttr
    &&& e.key == call->key.tag()
    &&& e.tag == call->tag.tag()
    &&& m.attr_data.len() <= u32::MAX ==> {
        &&& e.data_len == call->data.len()
        &&& e.data_off + e.data_len <= m.attr_data.len()
        &&& m.attr_bytes(e, e.data_len as int) == call->data
    }
}

/// The attributes of a node are those that were added to it, one for each call
/// and in the order of the calls, each with the key, the layout and the data of
/// its call; none, if there was no call. The node is allocated by one of the
/// calls or has no attributes before them, the calls on it stand together, and
/// the pool of entries stays within the range of offsets.
pub proof fn attrs_read_back(m: StorageModel, calls: Seq<Call>, node: u32)
    requires
        node < m.nodes.len() ==> bare(m, node),
        node < m.after_all(calls).nodes.len(),
        m.takes_all(calls),
        stand_together(calls, node),
        m.after_all(calls).attrs.len() <= u32::MAX,
    ensures
        ({
            let n = m.after_all(calls);
            let cs = attr_calls(calls, node);
            &&& n.attrs_ok(node as int)
            &&& n.node_attrs(node as int).len() == cs.len()
            &&& forall|i: int|
                0 <= i < cs.len() ==> entry_matches(n, n.node_attrs(node as int)[i], #[trigger] cs[i])
        }),
{
    attrs_so_far(m, calls, node);
    entries_match_calls(m, calls, node);
}

/// The shape of a value stays as it is until the value is given another one.
pub proof fn shapes_stay(m: StorageModel, calls: Seq<Call>, v: u32)
    requires
        m.takes_all(calls),
        v < m.values.len(),
        m.shape_ok(v as int),
        forall|i: int|
            0 <= i < calls.len() ==> !((#[trigger] calls[i]) is SetValueShape && calls[i]->SetValueShape_0
                == v),
    ensures
        v < m.after_all(calls).values.len(),
        m.after_all(calls).shape_ok(v as int),
        m.after_all(calls).value_shape(v as int) == m.value_shape(v as int),
    decreases calls.len(),
{
    if calls.len() > 0 {
        let front = calls.drop_last();
        assert forall|i: int| 0 <= i < front.len() implies !((#[trigger] front[i]) is SetValueShape
            && front[i]->SetValueShape_0 == v) by {
            assert(calls[i] == front[i]);
        }
        shapes_stay(m, front, v);
        assert(calls[calls.len() - 1] == calls.last());
        let b = m.after_all(front);
        let n = m.after_all(calls);
        assert(n.values[v as int].shape_off == b.values[v as int].shape_off);
        assert(n.values[v as int].rank == b.values[v as int].rank);
        assert(n.value_shape(v as int) == b.value_shape(v as int));
    }
}

/// The operands of a node stay as they are until the node is given others.
pub proof fn operands_stay(m: StorageModel, calls: Seq<Call>, node: u32)
    requires
        m.takes_all(calls),
        node < m.nodes.len(),
        m.inputs_ok(node as int),
        m.outputs_ok(node as int),
        forall|i: int|
            0 <= i < calls.len() ==> !((#[trigger] calls[i]) is SetNodeInputs && calls[i]->SetNodeInputs_0
                == node) && !(calls[i] is SetNodeOutputs && calls[i]->SetNodeOutputs_0 == node),
    ensures
        ({
            let n = m.after_all(calls);
            &&& node < n.nodes.len()
            &&& n.inputs_ok(node as int)
            &&& n.outputs_ok(node as int)
            &&& n.node_inputs(node as int) == m.node_inputs(node as int)
            &&& n.node_outputs(node as int) == m.node_outputs(node as int)
        }),
    decreases calls.len(),
{
    if calls.len() > 0 {
        let front = calls.drop_last();
        assert forall|i: int| 0 <= i < front.len() implies !((#[trigger] front[i]) is SetNodeInputs
            && front[i]->SetNodeInputs_0 == node) && !(front[i] is SetNodeOutputs
            && front[i]->SetNodeOutputs_0 == node) by {
            assert(calls[i] == front[i]);
        }
        operands_stay(m, front, node);
        assert(calls[calls.len() - 1] == calls.last());
        let b = m.after_all(front);
        let n = m.after_all(calls);
        assert(n.node_inputs(node as int) == b.node_inputs(node as int));
        assert(n.node_outputs(node as int) == b.node_outputs(node as int));
    }
}

} // verus!
