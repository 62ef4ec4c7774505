//! What reading passes over: comments, attributes that set nothing, and fields
//! that a message does not use.

use vstd::prelude::*;
use crate::base::OpKind;
use crate::frontend::dsl::{blank, comment_from, dsl_graph, lines_from, statement, without_comment};
use crate::frontend::messages::{
    AttrInfoModel, AttrParts, ModelInfoModel, NodeInfoModel, TensorParts, attr_from, attr_known,
    graph_from, graph_known, model_from, node_from, node_known, tensor_from, tensor_known,
};
use crate::frontend::onnx::{Build, setting, with_attributes};
use crate::frontend::proto::field_at;
use crate::graph::GraphModel;
use crate::text::{parts, trimmed};

verus! {

/// A comment starts where two slashes first stand side by side.
proof fn comment_starts(s: Seq<char>, i: nat, at: nat)
    requires
        i <= at,
        at + 1 < s.len(),
        s[at as int] == '/',
        s[at as int + 1] == '/',
        forall|k: int| i <= k < at ==> !(#[trigger] s[k] == '/' && s[k + 1] == '/'),
    ensures
        comment_from(s, i) == at,
    decreases at - i,
{
    if i < at {
        comment_starts(s, i + 1, at);
    }
}

/// Nothing is left of what stands behind two slashes, unless there is a comment
/// before them already.
pub proof fn comment_is_dropped(line: Seq<char>, comment: Seq<char>)
    requires
        forall|k: int| 0 <= k < line.len() - 1 ==> !(#[trigger] line[k] == '/' && line[k + 1] == '/'),
        line.len() > 0 ==> line.last() != '/',
    ensures
        without_comment(line + seq!['/', '/'] + comment) == line,
{
    let s = line + seq!['/', '/'] + comment;
    comment_starts(s, 0, line.len());
    assert(s.take(line.len() as int) == line);
}

/// Texts whose lines differ in their comments, or in the white space around
/// statements, stand for the same graph, or have the same error.
pub proof fn comments_change_nothing(a: Seq<char>, b: Seq<char>)
    requires
        parts(a, '\n').len() == parts(b, '\n').len(),
        forall|k: int|
            #![trigger parts(a, '\n')[k]]
            0 <= k < parts(a, '\n').len() ==> trimmed(without_comment(parts(a, '\n')[k])) == trimmed(
                without_comment(parts(b, '\n')[k]),
            ),
    ensures
        dsl_graph(a) == dsl_graph(b),
{
    lines_agree(blank(), parts(a, '\n'), parts(b, '\n'), 0);
}

proof fn lines_agree(g: Build, a: Seq<Seq<char>>, b: Seq<Seq<char>>, k: nat)
    requires
        a.len() == b.len(),
        forall|i: int|
            0 <= i < a.len() ==> trimmed(without_comment(#[trigger] a[i])) == trimmed(
                without_comment(b[i]),
            ),
    ensures
        lines_from(g, a, k) == lines_from(g, b, k),
    decreases a.len() - k,
{
    if k < a.len() {
        let line = trimmed(without_comment(a[k as int]));
        if line.len() == 0 {
            lines_agree(g, a, b, k + 1);
        } else if let Ok(h) = statement(g, line, k + 1) {
            lines_agree(h, a, b, k + 1);
        }
    }
}

/// An attribute that sets nothing can be left out, wherever it stands.
pub proof fn idle_attributes_change_nothing(
    g: GraphModel,
    node: int,
    kind: OpKind,
    before: Seq<AttrInfoModel>,
    idle: AttrInfoModel,
    after: Seq<AttrInfoModel>,
)
    requires
        setting(kind, idle) is None,
    ensures
        with_attributes(g, node, kind, before.push(idle) + after) == with_attributes(
            g,
            node,
            kind,
            before + after,
        ),
    decreases after.len(),
{
    if after.len() == 0 {
        assert(before.push(idle) + after == before.push(idle));
        assert(before + after == before);
        assert(before.push(idle).drop_last() == before);
    } else {
        assert((before.push(idle) + after).drop_last() == before.push(idle) + after.drop_last());
        assert((before + after).drop_last() == before + after.drop_last());
        idle_attributes_change_nothing(g, node, kind, before, idle, after.drop_last());
    }
}

/// An attribute is read on behind a field that it does not use.
pub proof fn attribute_skips_unused_field(d: Seq<u8>, i: nat, a: AttrParts)
    requires
        i < d.len(),
        field_at(d, i, attr_known()) matches Ok((n, _, _)) && !seq![1u32, 4, 5, 21].contains(n),
    ensures
        attr_from(d, i, a) == attr_from(d, field_at(d, i, attr_known())->Ok_0.2, a),
{
    let used = seq![1u32, 4, 5, 21];
    assert(used[0] == 1 && used[1] == 4 && used[2] == 5 && used[3] == 21);
}

/// A tensor is read on behind a field that it does not use.
pub proof fn tensor_skips_unused_field(d: Seq<u8>, i: nat, t: TensorParts)
    requires
        i < d.len(),
        field_at(d, i, tensor_known()) matches Ok((n, _, _)) && !seq![1u32, 2, 4, 7, 8, 9].contains(n),
    ensures
        tensor_from(d, i, t) == tensor_from(d, field_at(d, i, tensor_known())->Ok_0.2, t),
{
    let used = seq![1u32, 2, 4, 7, 8, 9];
    assert(used[0] == 1 && used[1] == 2 && used[2] == 4 && used[3] == 7 && used[4] == 8 && used[5] == 9);
}

/// A node is read on behind a field that it does not use.
pub proof fn node_skips_unused_field(d: Seq<u8>, i: nat, x: NodeInfoModel)
    requires
        i < d.len(),
        field_at(d, i, node_known()) matches Ok((n, _, _)) && !node_known().contains(n),
    ensures
        node_from(d, i, x) == node_from(d, field_at(d, i, node_known())->Ok_0.2, x),
{
    let used = node_known();
    assert(used[0] == 1 && used[1] == 2 && used[2] == 3 && used[3] == 5);
}

/// A graph is read on behind a field that it does not use.
pub proof fn graph_skips_unused_field(d: Seq<u8>, i: nat, m: ModelInfoModel)
    requires
        i < d.len(),
        field_at(d, i, graph_known()) matches Ok((n, _, _)) && !graph_known().contains(n),
    ensures
        graph_from(d, i, m) == graph_from(d, field_at(d, i, graph_known())->Ok_0.2, m),
{
    let used = graph_known();
    assert(used[0] == 1 && used[1] == 2 && used[2] == 5 && used[3] == 11 && used[4] == 12);
}

/// A model is read on behind a field that does not hold its graph.
pub proof fn model_skips_unused_field(d: Seq<u8>, i: nat, m: ModelInfoModel)
    requires
        i < d.len(),
        field_at(d, i, seq![7u32]) matches Ok((n, _, _)) && n != 7,
    ensures
        model_from(d, i, m) == model_from(d, field_at(d, i, seq![7u32])->Ok_0.2, m),
{
}

} // verus!
