//! CUDA sources tell windows of different sizes apart.

use vstd::prelude::*;
use crate::backend::dialect::first_or;
use crate::backend::filling::{
    are_tokens, filling_in_parts, is_fenced, is_mark, is_plain, number_is_read, numbers_are_plain, plain_is_kept,
    put_all, slot, slot_is_filled,
};
use crate::backend::spec::{GpuArch, KernelModel};
use crate::base::OpKind;
use crate::text::dec_int;
use super::laws::{surroundings_are_plain, tokens_differ};
use super::templates::{
    POOL_1, POOL_2, POOL_3, POOL_4, POOL_5, POOL_6, pool_template,
};
use super::{kernel_text, pool_kernel_text};

verus! {

/// What the source of a pooling kernel begins with.
spec fn pool_beginning(name: Seq<char>, size: int, stride: int, padding: int) -> Seq<char> {
    slot("// "@, name, ":"@) + POOL_1@ + slot("// kernel_size="@, dec_int(size), ","@) + slot(
        " stride="@,
        dec_int(stride),
        ","@,
    ) + slot(" padding="@, dec_int(padding), "\n"@)
}

/// Whether a text ends with a character that no token has.
spec fn is_closed(s: Seq<char>) -> bool {
    s.len() > 0 && !is_mark(s[s.len() - 1])
}

/// Filling a text that is made of closed parts and a rest.
proof fn parts_are_filled(
    s1: Seq<char>,
    s2: Seq<char>,
    s3: Seq<char>,
    s4: Seq<char>,
    s5: Seq<char>,
    tail: Seq<char>,
    puts: Seq<(Seq<char>, Seq<char>)>,
)
    requires
        are_tokens(puts),
        is_closed(s1),
        is_closed(s2),
        is_closed(s3),
        is_closed(s4),
        is_closed(s5),
    ensures
        put_all(s1 + s2 + s3 + s4 + s5 + tail, puts) == put_all(s1, puts) + put_all(s2, puts)
            + put_all(s3, puts) + put_all(s4, puts) + put_all(s5, puts) + put_all(tail, puts),
{
    let a2 = s1 + s2;
    let a3 = a2 + s3;
    let a4 = a3 + s4;
    let a5 = a4 + s5;
    assert(a2[a2.len() - 1] == s2[s2.len() - 1]);
    assert(a3[a3.len() - 1] == s3[s3.len() - 1]);
    assert(a4[a4.len() - 1] == s4[s4.len() - 1]);
    assert(a5[a5.len() - 1] == s5[s5.len() - 1]);
    filling_in_parts(s1, s2, puts);
    filling_in_parts(a2, s3, puts);
    filling_in_parts(a3, s4, puts);
    filling_in_parts(a4, s5, puts);
    filling_in_parts(a5, tail, puts);
}

/// A slot ends with the text behind the token.
proof fn slot_is_closed(pre: Seq<char>, t: Seq<char>, post: Seq<char>)
    requires
        is_fenced(post),
    ensures
        is_closed(slot(pre, t, post)),
{
    let s = slot(pre, t, post);
    assert(s[s.len() - 1] == post[post.len() - 1]);
}

/// The template of pooling kernels behind what it begins with.
spec fn pool_tail() -> Seq<char> {
    POOL_2@ + slot("void "@, "__NAME__"@, "("@) + POOL_3@ + slot(
        "int kernel = "@,
        "__KERNEL__"@,
        ";"@,
    ) + POOL_4@ + slot("int stride = "@, "__STRIDE__"@, ";"@) + POOL_5@ + slot(
        "int padding = "@,
        "__PADDING__"@,
        ";"@,
    ) + POOL_6@
}

/// Texts put together in another order of steps.
proof fn put_together(
    a: Seq<char>,
    b1: Seq<char>,
    b2: Seq<char>,
    b3: Seq<char>,
    b4: Seq<char>,
    b5: Seq<char>,
    b6: Seq<char>,
    b7: Seq<char>,
    b8: Seq<char>,
    b9: Seq<char>,
)
    ensures
        a + b1 + b2 + b3 + b4 + b5 + b6 + b7 + b8 + b9 == a + (b1 + b2 + b3 + b4 + b5 + b6 + b7 + b8
            + b9),
{
    assert(a + b1 + b2 == a + (b1 + b2));
    assert(a + b1 + b2 + b3 == a + (b1 + b2 + b3));
    assert(a + b1 + b2 + b3 + b4 == a + (b1 + b2 + b3 + b4));
    assert(a + b1 + b2 + b3 + b4 + b5 == a + (b1 + b2 + b3 + b4 + b5));
    assert(a + b1 + b2 + b3 + b4 + b5 + b6 == a + (b1 + b2 + b3 + b4 + b5 + b6));
    assert(a + b1 + b2 + b3 + b4 + b5 + b6 + b7 == a + (b1 + b2 + b3 + b4 + b5 + b6 + b7));
    assert(a + b1 + b2 + b3 + b4 + b5 + b6 + b7 + b8 == a + (b1 + b2 + b3 + b4 + b5 + b6 + b7 + b8));
}

proof fn pool_line_is_plain()
    ensures
        is_plain(POOL_1@),
        is_closed(POOL_1@),
{
    reveal_strlit(
        r#" Pool (max 池化，每线程算一个输出元素)
"#,
    );
}

spec fn pool_puts(k: KernelModel) -> Seq<(Seq<char>, Seq<char>)> {
    seq![
        ("__NAME__"@, k.name),
        ("__KERNEL__"@, dec_int(first_or(k.attrs.pool_kernel, 2) as int)),
        ("__STRIDE__"@, dec_int(first_or(k.attrs.pool_stride, 1) as int)),
        ("__PADDING__"@, dec_int(first_or(k.attrs.pool_padding, 0) as int)),
    ]
}

proof fn pool_is_filled(k: KernelModel)
    ensures
        put_all(pool_template(), pool_puts(k)) == pool_kernel_text(k),
        are_tokens(pool_puts(k)),
{
    let puts = pool_puts(k);
    tokens_differ();
    reveal_with_fuel(put_all, 5);
    assert(puts.drop_last().drop_last().drop_last().drop_last().len() == 0);
    assert(put_all(pool_template(), puts) == pool_kernel_text(k));
}

proof fn pool_begins(k: KernelModel) -> (rest: Seq<char>)
    requires
        is_plain(k.name),
    ensures
        pool_kernel_text(k) == pool_beginning(
            k.name,
            first_or(k.attrs.pool_kernel, 2) as int,
            first_or(k.attrs.pool_stride, 1) as int,
            first_or(k.attrs.pool_padding, 0) as int,
        ) + rest,
{
    let puts = pool_puts(k);
    let tail = pool_tail();
    let s1 = slot("// "@, "__NAME__"@, ":"@);
    let s2 = slot("// kernel_size="@, "__KERNEL__"@, ","@);
    let s3 = slot(" stride="@, "__STRIDE__"@, ","@);
    let s4 = slot(" padding="@, "__PADDING__"@, "\n"@);
    pool_is_filled(k);
    surroundings_are_plain();
    pool_line_is_plain();
    numbers_are_plain(first_or(k.attrs.pool_kernel, 2) as int);
    numbers_are_plain(first_or(k.attrs.pool_stride, 1) as int);
    numbers_are_plain(first_or(k.attrs.pool_padding, 0) as int);
    put_together(
        s1 + POOL_1@ + s2 + s3 + s4,
        POOL_2@,
        slot("void "@, "__NAME__"@, "("@),
        POOL_3@,
        slot("int kernel = "@, "__KERNEL__"@, ";"@),
        POOL_4@,
        slot("int stride = "@, "__STRIDE__"@, ";"@),
        POOL_5@,
        slot("int padding = "@, "__PADDING__"@, ";"@),
        POOL_6@,
    );
    slot_is_closed("// "@, "__NAME__"@, ":"@);
    slot_is_closed("// kernel_size="@, "__KERNEL__"@, ","@);
    slot_is_closed(" stride="@, "__STRIDE__"@, ","@);
    slot_is_closed(" padding="@, "__PADDING__"@, "\n"@);
    parts_are_filled(s1, POOL_1@, s2, s3, s4, tail, puts);
    assert(puts.take(4) == puts);
    slot_is_filled(puts, 4, 0, "// "@, ":"@);
    slot_is_filled(puts, 4, 1, "// kernel_size="@, ","@);
    slot_is_filled(puts, 4, 2, " stride="@, ","@);
    slot_is_filled(puts, 4, 3, " padding="@, "\n"@);
    plain_is_kept(POOL_1@, puts, 4);
    put_all(tail, puts)
}

/// A number between two texts, as it stands in a slot.
proof fn slot_is_read(
    a: Seq<char>,
    pre: Seq<char>,
    x: int,
    y: int,
    post: Seq<char>,
    stop: char,
    r: Seq<char>,
    q: Seq<char>,
)
    requires
        post == seq![stop],
        !('0' <= stop <= '9'),
        stop != '-',
        a + slot(pre, dec_int(x), post) + r == a + slot(pre, dec_int(y), post) + q,
    ensures
        x == y,
        r == q,
{
    let b = a + pre;
    assert(a + slot(pre, dec_int(x), post) + r == b + (dec_int(x) + seq![stop]) + r);
    assert(a + slot(pre, dec_int(y), post) + q == b + (dec_int(y) + seq![stop]) + q);
    number_is_read(b, x, y, stop, r, q);
}

/// Pooling kernels of one name have the same source only if their first kernel
/// sizes, strides and paddings are the same: those that differ in one of them
/// have different sources.
pub proof fn pool_sources_tell_apart(k: KernelModel, l: KernelModel, scalar: Seq<char>, arch: GpuArch)
    requires
        k.op == OpKind::Pool,
        l.op == OpKind::Pool,
        k.name == l.name,
        is_plain(k.name),
        kernel_text(k, scalar, arch) == kernel_text(l, scalar, arch),
    ensures
        k.attrs.pool_kernel.len() > 0 && l.attrs.pool_kernel.len() > 0
            ==> k.attrs.pool_kernel[0] as i32 == l.attrs.pool_kernel[0] as i32,
        k.attrs.pool_stride.len() > 0 && l.attrs.pool_stride.len() > 0
            ==> k.attrs.pool_stride[0] as i32 == l.attrs.pool_stride[0] as i32,
        k.attrs.pool_padding.len() > 0 && l.attrs.pool_padding.len() > 0
            ==> k.attrs.pool_padding[0] as i32 == l.attrs.pool_padding[0] as i32,
{
    let r = pool_begins(k);
    let q = pool_begins(l);
    let kn = dec_int(first_or(k.attrs.pool_kernel, 2) as int);
    let ln = dec_int(first_or(l.attrs.pool_kernel, 2) as int);
    let ks = slot(" stride="@, dec_int(first_or(k.attrs.pool_stride, 1) as int), ","@);
    let ls = slot(" stride="@, dec_int(first_or(l.attrs.pool_stride, 1) as int), ","@);
    let kp = slot(" padding="@, dec_int(first_or(k.attrs.pool_padding, 0) as int), "\n"@);
    let lp = slot(" padding="@, dec_int(first_or(l.attrs.pool_padding, 0) as int), "\n"@);
    let a = slot("// "@, k.name, ":"@) + POOL_1@;
    let none = Seq::<char>::empty();
    reveal_strlit(",");
    reveal_strlit("\n");
    assert(","@ == seq![',']);
    assert("\n"@ == seq!['\n']);
    assert(pool_kernel_text(k) == a + slot("// kernel_size="@, kn, ","@) + (ks + (kp + r)));
    assert(pool_kernel_text(l) == a + slot("// kernel_size="@, ln, ","@) + (ls + (lp + q)));
    slot_is_read(
        a,
        "// kernel_size="@,
        first_or(k.attrs.pool_kernel, 2) as int,
        first_or(l.attrs.pool_kernel, 2) as int,
        ","@,
        ',',
        ks + (kp + r),
        ls + (lp + q),
    );
    assert(none + ks + (kp + r) == ks + (kp + r));
    assert(none + ls + (lp + q) == ls + (lp + q));
    slot_is_read(
        none,
        " stride="@,
        first_or(k.attrs.pool_stride, 1) as int,
        first_or(l.attrs.pool_stride, 1) as int,
        ","@,
        ',',
        kp + r,
        lp + q,
    );
    assert(none + kp + r == kp + r);
    assert(none + lp + q == lp + q);
    slot_is_read(
        none,
        " padding="@,
        first_or(k.attrs.pool_padding, 0) as int,
        first_or(l.attrs.pool_padding, 0) as int,
        "\n"@,
        '\n',
        r,
        q,
    );
}

} // verus!
