//! What a template says once its tokens are replaced.

use vstd::prelude::*;
use crate::backend::dialect::{Template, contains};
use crate::backend::spec::{DTypeExt, listed};
use crate::base::DType;
use crate::text::{dec, dec_int, dec_is_digits, dec_tells_apart, occurs_at, replace_from, replaced};

verus! {

/// The characters that tokens are made of.
pub open spec fn is_mark(c: char) -> bool {
    c == '_' || 'A' <= c <= 'Z'
}

/// Whether a text is a token: a word in upper case between two underscores on
/// either side, with no two underscores next to each other in it.
pub open spec fn is_token(t: Seq<char>) -> bool {
    &&& t.len() >= 5
    &&& t[0] == '_' && t[1] == '_' && t[t.len() - 2] == '_' && t[t.len() - 1] == '_'
    &&& forall|i: int| 0 <= i < t.len() ==> is_mark(#[trigger] t[i])
    &&& forall|i: int| 1 <= i < t.len() - 2 ==> !(#[trigger] t[i] == '_' && t[i + 1] == '_')
}

/// Whether a token begins at place `i`: two underscores before a letter in upper
/// case.
pub open spec fn begins_token(s: Seq<char>, i: int) -> bool {
    s[i] == '_' && s[i + 1] == '_' && 'A' <= s[i + 2] <= 'Z'
}

/// Whether no token begins in a text.
pub open spec fn is_plain(s: Seq<char>) -> bool {
    forall|i: int| 0 <= i < s.len() - 2 ==> !(#[trigger] begins_token(s, i))
}

/// Whether a text neither begins nor ends with a character of tokens.
pub open spec fn is_fenced(s: Seq<char>) -> bool {
    s.len() > 0 && !is_mark(s[0]) && !is_mark(s[s.len() - 1])
}

/// An occurrence, character by character.
proof fn occurrence(s: Seq<char>, p: Seq<char>, i: int)
    ensures
        occurs_at(s, p, i) <==> 0 <= i && i + p.len() <= s.len() && forall|j: int|
            0 <= j < p.len() ==> s[i + j] == #[trigger] p[j],
{
    if 0 <= i && i + p.len() <= s.len() {
        let w = s.subrange(i, i + p.len());
        if occurs_at(s, p, i) {
            assert forall|j: int| 0 <= j < p.len() implies s[i + j] == #[trigger] p[j] by {
                assert(w[j] == p[j]);
            }
        }
        if forall|j: int| 0 <= j < p.len() ==> s[i + j] == #[trigger] p[j] {
            assert(w =~= p);
        }
    }
}

/// Replacing a token on either side of a seam that it cannot lie across.
proof fn replacing_behind_seam(a: Seq<char>, b: Seq<char>, t: Seq<char>, w: Seq<char>, i: int)
    requires
        t.len() > 0,
        a.len() <= i <= a.len() + b.len(),
    ensures
        replace_from(a + b, t, w, i) == replace_from(b, t, w, i - a.len()),
    decreases a.len() + b.len() - i,
{
    let s = a + b;
    let k = i - a.len();
    if i < s.len() {
        occurrence(s, t, i);
        occurrence(b, t, k);
        assert(occurs_at(s, t, i) <==> occurs_at(b, t, k)) by {
            if occurs_at(s, t, i) {
                assert forall|j: int| 0 <= j < t.len() implies b[k + j] == #[trigger] t[j] by {
                    assert(s[i + j] == t[j]);
                }
            }
            if occurs_at(b, t, k) {
                assert forall|j: int| 0 <= j < t.len() implies s[i + j] == #[trigger] t[j] by {
                    assert(b[k + j] == t[j]);
                }
            }
        }
        if occurs_at(s, t, i) {
            replacing_behind_seam(a, b, t, w, i + t.len());
        } else {
            replacing_behind_seam(a, b, t, w, i + 1);
        }
    }
}

proof fn replacing_before_seam(a: Seq<char>, b: Seq<char>, t: Seq<char>, w: Seq<char>, i: int)
    requires
        is_token(t),
        a.len() > 0 && !is_mark(a[a.len() - 1]) || b.len() > 0 && !is_mark(b[0]) || a.len() == 0
            || b.len() == 0,
        0 <= i <= a.len(),
    ensures
        replace_from(a + b, t, w, i) == replace_from(a, t, w, i) + replace_from(b, t, w, 0),
    decreases a.len() - i,
{
    let s = a + b;
    if i == a.len() {
        replacing_behind_seam(a, b, t, w, i);
        assert(replace_from(a, t, w, i) + replace_from(b, t, w, 0) == replace_from(b, t, w, 0));
    } else {
        occurrence(s, t, i);
        occurrence(a, t, i);
        if occurs_at(s, t, i) && i + t.len() > a.len() {
            let j = a.len() - i;
            assert(s[i + j] == t[j]);
            assert(s[i + (j - 1)] == t[j - 1]);
            assert(is_mark(t[j]) && is_mark(t[j - 1]));
            assert(false);
        }
        assert(occurs_at(s, t, i) <==> occurs_at(a, t, i)) by {
            if occurs_at(s, t, i) {
                assert forall|j: int| 0 <= j < t.len() implies a[i + j] == #[trigger] t[j] by {
                    assert(s[i + j] == t[j]);
                }
            }
            if occurs_at(a, t, i) {
                assert forall|j: int| 0 <= j < t.len() implies s[i + j] == #[trigger] t[j] by {
                    assert(a[i + j] == t[j]);
                }
            }
        }
        if occurs_at(s, t, i) {
            replacing_before_seam(a, b, t, w, i + t.len());
            assert(w + (replace_from(a, t, w, i + t.len()) + replace_from(b, t, w, 0)) == (w
                + replace_from(a, t, w, i + t.len())) + replace_from(b, t, w, 0));
        } else {
            replacing_before_seam(a, b, t, w, i + 1);
            assert(seq![s[i]] + (replace_from(a, t, w, i + 1) + replace_from(b, t, w, 0)) == (
            seq![a[i]] + replace_from(a, t, w, i + 1)) + replace_from(b, t, w, 0));
        }
    }
}

/// Replacing a token works on the parts of a text that a character which no token
/// has sets apart.
pub proof fn replacing_in_parts(a: Seq<char>, b: Seq<char>, t: Seq<char>, w: Seq<char>)
    requires
        is_token(t),
        a.len() > 0 && !is_mark(a[a.len() - 1]) || b.len() > 0 && !is_mark(b[0]) || a.len() == 0
            || b.len() == 0,
    ensures
        replaced(a + b, t, w) == replaced(a, t, w) + replaced(b, t, w),
{
    replacing_before_seam(a, b, t, w, 0);
}

/// What a fenced part of a text becomes stands in what the text becomes.
pub proof fn part_is_replaced(s: Seq<char>, p: Seq<char>, t: Seq<char>, w: Seq<char>)
    requires
        is_token(t),
        is_fenced(p),
        contains(s, p),
    ensures
        contains(replaced(s, t, w), replaced(p, t, w)),
{
    let i = choose|i: int| #[trigger] occurs_at(s, p, i);
    let a = s.take(i);
    let b = s.skip(i + p.len());
    assert(s == a + p + b);
    replacing_in_parts(a + p, b, t, w);
    replacing_in_parts(a, p, t, w);
    let x = replaced(a, t, w);
    let y = replaced(p, t, w);
    let z = replaced(b, t, w);
    assert((x + y + z).subrange(x.len() as int, (x.len() + y.len()) as int) == y);
    assert(occurs_at(x + y + z, y, x.len() as int));
}

/// A text in which a token does not occur is not changed.
proof fn nothing_to_replace(s: Seq<char>, t: Seq<char>, w: Seq<char>, i: int)
    requires
        t.len() > 0,
        0 <= i <= s.len(),
        forall|j: int| i <= j < s.len() ==> !(#[trigger] occurs_at(s, t, j)),
    ensures
        replace_from(s, t, w, i) == s.skip(i),
    decreases s.len() - i,
{
    if i < s.len() {
        nothing_to_replace(s, t, w, i + 1);
        assert(!occurs_at(s, t, i));
        assert(seq![s[i]] + s.skip(i + 1) == s.skip(i));
    } else {
        assert(s.skip(i) == Seq::<char>::empty());
    }
}

/// A plain text has no token in it, so replacing one does not change it.
pub proof fn plain_stays(s: Seq<char>, t: Seq<char>, w: Seq<char>)
    requires
        is_token(t),
        is_plain(s),
    ensures
        replaced(s, t, w) == s,
{
    assert forall|j: int| 0 <= j < s.len() implies !(#[trigger] occurs_at(s, t, j)) by {
        occurrence(s, t, j);
        if occurs_at(s, t, j) {
            assert(s[j + 0] == t[0]);
            assert(s[j + 1] == t[1]);
            assert(s[j + 2] == t[2]);
            assert(is_mark(t[2]));
            assert(!(t[1] == '_' && t[2] == '_'));
            assert(begins_token(s, j));
        }
    }
    nothing_to_replace(s, t, w, 0);
    assert(s.skip(0) == s);
}

/// Two tokens, of which one occurs at a place of the other that is fenced, are one.
proof fn token_in_token(t: Seq<char>, u: Seq<char>, j: int, pre: Seq<char>, post: Seq<char>)
    requires
        is_token(t),
        is_token(u),
        is_plain(pre),
        is_plain(post),
        is_fenced(pre),
        is_fenced(post),
        0 <= j,
        occurs_at(pre + t + post, u, j),
    ensures
        u == t,
        j == pre.len(),
{
    let s = pre + t + post;
    occurrence(s, u, j);
    let m = pre.len() as int;
    let n = t.len() as int;
    assert(s[j + 0] == u[0] && s[j + 1] == u[1] && s[j + 2] == u[2]);
    assert(u[0] == '_' && u[1] == '_');
    assert(is_mark(u[2]));
    assert(!(u[1] == '_' && u[2] == '_'));
    assert(begins_token(s, j));
    assert(s[m - 1] == pre[m - 1]);
    assert(s[m + n] == post[0]);
    if j + 2 < m {
        assert(begins_token(pre, j));
        assert(false);
    }
    if j + 2 == m {
        assert(s[m] == t[0]);
        assert(false);
    }
    if j + 1 == m {
        assert(s[m - 1] == '_');
        assert(is_mark('_'));
        assert(false);
    }
    if j >= m + n {
        let l = j - m - n;
        assert(post[l] == s[j] && post[l + 1] == s[j + 1] && post[l + 2] == s[j + 2]);
        assert(begins_token(post, l));
        assert(false);
    }
    if j == m + n - 1 {
        assert(s[m + n] == '_');
        assert(false);
    }
    let k = j - m;
    assert(t[k] == s[j] && t[k + 1] == s[j + 1]);
    if k == n - 2 {
        assert(s[m + n] == u[2]);
        assert(is_mark(u[2]));
        assert(false);
    }
    assert(k == 0) by {
        if k >= 1 {
            assert(t[k] == '_' && t[k + 1] == '_');
        }
    }
    if u.len() > n {
        assert(s[j + n] == u[n]);
        assert(is_mark(u[n]));
        assert(false);
    }
    if u.len() < n {
        let l = u.len() as int;
        assert(s[j + (l - 2)] == u[l - 2] && s[j + (l - 1)] == u[l - 1]);
        assert(t[l - 2] == '_' && t[l - 1] == '_');
        assert(1 <= l - 2 < n - 2);
        assert(t[l - 2 + 1] == '_');
        assert(false);
    }
    assert forall|i: int| 0 <= i < n implies u[i] == t[i] by {
        assert(s[j + i] == u[i]);
    }
    assert(u =~= t);
}

/// Replacing another token leaves a token between plain texts as it is.
pub proof fn other_token_stays(pre: Seq<char>, t: Seq<char>, post: Seq<char>, u: Seq<char>, w: Seq<char>)
    requires
        is_token(t),
        is_token(u),
        u != t,
        is_plain(pre),
        is_plain(post),
        is_fenced(pre),
        is_fenced(post),
    ensures
        replaced(pre + t + post, u, w) == pre + t + post,
{
    let s = pre + t + post;
    assert forall|j: int| 0 <= j < s.len() implies !(#[trigger] occurs_at(s, u, j)) by {
        if occurs_at(s, u, j) {
            token_in_token(t, u, j, pre, post);
        }
    }
    nothing_to_replace(s, u, w, 0);
    assert(s.skip(0) == s);
}

/// Replacing a token between plain texts puts the value in its place.
pub proof fn token_is_filled(pre: Seq<char>, t: Seq<char>, post: Seq<char>, w: Seq<char>)
    requires
        is_token(t),
        is_plain(pre),
        is_plain(post),
        is_fenced(pre),
        is_fenced(post),
    ensures
        replaced(pre + t + post, t, w) == pre + w + post,
{
    replacing_in_parts(pre + t, post, t, w);
    replacing_in_parts(pre, t, t, w);
    plain_stays(pre, t, w);
    plain_stays(post, t, w);
    assert(occurs_at(t, t, 0)) by {
        assert(t.subrange(0, t.len() as int) == t);
    }
    assert(replaced(t, t, w) == w + replace_from(t, t, w, t.len() as int));
    assert(replaced(t, t, w) == w);
}

/// A text after tokens were replaced in order, each by its value.
pub open spec fn put_all(s: Seq<char>, puts: Seq<(Seq<char>, Seq<char>)>) -> Seq<char>
    decreases puts.len(),
{
    if puts.len() == 0 {
        s
    } else {
        put_all(s, puts.drop_last()).put(puts.last().0, puts.last().1)
    }
}

/// Whether the texts that are replaced are tokens, each once.
pub open spec fn are_tokens(puts: Seq<(Seq<char>, Seq<char>)>) -> bool {
    &&& forall|i: int| 0 <= i < puts.len() ==> is_token((#[trigger] puts[i]).0)
    &&& forall|i: int, j: int|
        #![trigger puts[i], puts[j]]
        0 <= i < j < puts.len() ==> puts[i].0 != puts[j].0
}

/// A token of a template that stands between plain texts is replaced by its value,
/// and replacing the other tokens leaves the value in its place.
pub proof fn value_is_put(
    s: Seq<char>,
    puts: Seq<(Seq<char>, Seq<char>)>,
    n: nat,
    j: int,
    pre: Seq<char>,
    post: Seq<char>,
)
    requires
        n <= puts.len(),
        0 <= j < puts.len(),
        are_tokens(puts),
        is_plain(pre),
        is_plain(post),
        is_fenced(pre),
        is_fenced(post),
        is_plain(puts[j].1),
        contains(s, pre + puts[j].0 + post),
    ensures
        contains(
            put_all(s, puts.take(n as int)),
            if j < n {
                pre + puts[j].1 + post
            } else {
                pre + puts[j].0 + post
            },
        ),
    decreases n,
{
    let t = puts[j].0;
    let x = puts[j].1;
    if n == 0 {
    } else {
        let i = n - 1;
        value_is_put(s, puts, (n - 1) as nat, j, pre, post);
        assert(puts.take(n as int).drop_last() == puts.take(i));
        assert(puts.take(n as int).last() == puts[i]);
        let before = put_all(s, puts.take(i));
        let p = if j < i {
            pre + x + post
        } else {
            pre + t + post
        };
        assert(is_fenced(p)) by {
            assert(p[0] == pre[0]);
            assert(p[p.len() - 1] == post[post.len() - 1]);
        }
        part_is_replaced(before, p, puts[i].0, puts[i].1);
        if j < i {
            filled_is_plain(pre, x, post);
            plain_stays(p, puts[i].0, puts[i].1);
        } else if j == i {
            token_is_filled(pre, t, post, x);
        } else {
            other_token_stays(pre, t, post, puts[i].0, puts[i].1);
        }
    }
}

/// A plain value between plain texts that end and begin with no character of
/// tokens.
proof fn filled_is_plain(pre: Seq<char>, x: Seq<char>, post: Seq<char>)
    requires
        is_plain(pre),
        is_plain(x),
        is_plain(post),
        is_fenced(pre),
        is_fenced(post),
    ensures
        is_plain(pre + x + post),
{
    let p = pre + x + post;
    let m = pre.len() as int;
    let n = m + x.len();
    assert(p[m - 1] == pre[m - 1]);
    assert(p[n] == post[0]);
    assert forall|i: int| 0 <= i < p.len() - 2 implies !(#[trigger] begins_token(p, i)) by {
        if begins_token(p, i) {
            assert(is_mark(p[i]) && is_mark(p[i + 1]) && is_mark(p[i + 2]));
            if i + 2 < m {
                assert(begins_token(pre, i));
            } else if i >= n {
                assert(begins_token(post, i - n));
            } else {
                assert(m <= i && i + 2 < n);
                assert(begins_token(x, i - m));
            }
        }
    }
}

/// A token with the texts before and behind it.
pub open spec fn slot(pre: Seq<char>, token: Seq<char>, post: Seq<char>) -> Seq<char> {
    pre + token + post
}

pub(crate) fn push_slot(s: &mut String, pre: &str, token: &str, post: &str)
    ensures
        final(s)@ == old(s)@ + slot(pre@, token@, post@),
{
    s.append(pre);
    s.append(token);
    s.append(post);
    assert(s@ == old(s)@ + slot(pre@, token@, post@));
}

/// A text is a part of itself.
pub proof fn whole_is_part(p: Seq<char>)
    ensures
        contains(p, p),
{
    assert(p.subrange(0, p.len() as int) == p);
    assert(occurs_at(p, p, 0));
}

/// What is added to a text is a part of it.
pub proof fn end_is_part(a: Seq<char>, p: Seq<char>)
    ensures
        contains(a + p, p),
{
    let s = a + p;
    assert(s.subrange(a.len() as int, (a.len() + p.len()) as int) == p);
    assert(occurs_at(s, p, a.len() as int));
}

/// A part of a text stays one when more is added.
pub proof fn part_stays(a: Seq<char>, b: Seq<char>, p: Seq<char>)
    requires
        contains(a, p),
    ensures
        contains(a + b, p),
{
    let i = choose|i: int| #[trigger] occurs_at(a, p, i);
    assert((a + b).subrange(i, i + p.len()) == a.subrange(i, i + p.len()));
    assert(occurs_at(a + b, p, i));
}

/// A few characters of a token, which tell tokens apart.
pub open spec fn word(t: Seq<char>) -> (char, char, char, nat) {
    (t[2], t[3], t[t.len() - 3], t.len())
}

/// Decimal notations have no underscores.
pub proof fn numbers_are_plain(n: int)
    ensures
        is_plain(dec_int(n)),
        n >= 0 ==> is_plain(dec(n as nat)),
{
    if n < 0 {
        dec_is_digits((-n) as nat);
        let d = dec((-n) as nat);
        let s = dec_int(n);
        assert forall|i: int| 0 <= i < s.len() - 2 implies !(#[trigger] begins_token(s, i)) by {
            if i > 0 {
                assert(s[i] == d[i - 1]);
            }
        }
    } else {
        dec_is_digits(n as nat);
        let s = dec_int(n);
        assert forall|i: int| 0 <= i < s.len() - 2 implies !(#[trigger] begins_token(s, i)) by {
            assert('0' <= s[i] <= '9');
        }
    }
}

/// Replacing tokens keeps a last character that no token has.
proof fn end_stays(s: Seq<char>, puts: Seq<(Seq<char>, Seq<char>)>)
    requires
        are_tokens(puts),
        s.len() > 0,
        !is_mark(s[s.len() - 1]),
    ensures
        ({
            let r = put_all(s, puts);
            r.len() > 0 && r[r.len() - 1] == s[s.len() - 1]
        }),
    decreases puts.len(),
{
    if puts.len() > 0 {
        let front = puts.drop_last();
        assert(are_tokens(front)) by {
            assert forall|i: int| 0 <= i < front.len() implies is_token((#[trigger] front[i]).0) by {
                assert(front[i] == puts[i]);
            }
            assert forall|i: int, j: int|
                #![trigger front[i], front[j]]
                0 <= i < j < front.len() implies front[i].0 != front[j].0 by {
                assert(front[i] == puts[i] && front[j] == puts[j]);
            }
        }
        end_stays(s, front);
        let r = put_all(s, front);
        let (t, w) = puts.last();
        let a = r.drop_last();
        let b = seq![r.last()];
        assert(is_token(puts[puts.len() - 1].0));
        assert(r == a + b);
        replacing_in_parts(a, b, t, w);
        assert(is_plain(b));
        plain_stays(b, t, w);
    }
}

/// Replacing tokens works on the parts of a text of which the first ends with a
/// character that no token has.
pub proof fn filling_in_parts(a: Seq<char>, b: Seq<char>, puts: Seq<(Seq<char>, Seq<char>)>)
    requires
        are_tokens(puts),
        a.len() > 0,
        !is_mark(a[a.len() - 1]),
    ensures
        put_all(a + b, puts) == put_all(a, puts) + put_all(b, puts),
    decreases puts.len(),
{
    if puts.len() > 0 {
        let front = puts.drop_last();
        assert(are_tokens(front)) by {
            assert forall|i: int| 0 <= i < front.len() implies is_token((#[trigger] front[i]).0) by {
                assert(front[i] == puts[i]);
            }
            assert forall|i: int, j: int|
                #![trigger front[i], front[j]]
                0 <= i < j < front.len() implies front[i].0 != front[j].0 by {
                assert(front[i] == puts[i] && front[j] == puts[j]);
            }
        }
        filling_in_parts(a, b, front);
        end_stays(a, front);
        assert(is_token(puts[puts.len() - 1].0));
        replacing_in_parts(put_all(a, front), put_all(b, front), puts.last().0, puts.last().1);
    }
}

/// A plain text stays as it is.
pub proof fn plain_is_kept(s: Seq<char>, puts: Seq<(Seq<char>, Seq<char>)>, n: nat)
    requires
        are_tokens(puts),
        is_plain(s),
        n <= puts.len(),
    ensures
        put_all(s, puts.take(n as int)) == s,
    decreases n,
{
    if n > 0 {
        plain_is_kept(s, puts, (n - 1) as nat);
        assert(puts.take(n as int).drop_last() == puts.take(n - 1));
        assert(puts.take(n as int).last() == puts[n - 1]);
        plain_stays(s, puts[n - 1].0, puts[n - 1].1);
    }
}

/// A token between plain texts becomes its value.
pub proof fn slot_is_filled(
    puts: Seq<(Seq<char>, Seq<char>)>,
    n: nat,
    j: int,
    pre: Seq<char>,
    post: Seq<char>,
)
    requires
        n <= puts.len(),
        0 <= j < puts.len(),
        are_tokens(puts),
        is_plain(pre),
        is_plain(post),
        is_fenced(pre),
        is_fenced(post),
        is_plain(puts[j].1),
    ensures
        put_all(slot(pre, puts[j].0, post), puts.take(n as int)) == if j < n {
            slot(pre, puts[j].1, post)
        } else {
            slot(pre, puts[j].0, post)
        },
    decreases n,
{
    if n > 0 {
        let i = n - 1;
        slot_is_filled(puts, (n - 1) as nat, j, pre, post);
        assert(puts.take(n as int).drop_last() == puts.take(i));
        assert(puts.take(n as int).last() == puts[i]);
        if j < i {
            filled_is_plain(pre, puts[j].1, post);
            plain_stays(slot(pre, puts[j].1, post), puts[i].0, puts[i].1);
        } else if j == i {
            token_is_filled(pre, puts[j].0, post, puts[j].1);
        } else {
            other_token_stays(pre, puts[j].0, post, puts[i].0, puts[i].1);
        }
    }
}

/// Numbers that stand at the same place of one text, each before a character that
/// is no digit, are one.
pub proof fn number_is_read(a: Seq<char>, x: int, y: int, stop: char, r: Seq<char>, q: Seq<char>)
    requires
        !('0' <= stop <= '9'),
        stop != '-',
        a + (dec_int(x) + seq![stop]) + r == a + (dec_int(y) + seq![stop]) + q,
    ensures
        x == y,
        r == q,
{
    let dx = dec_int(x);
    let dy = dec_int(y);
    let s = a + (dx + seq![stop]) + r;
    let u = a + (dy + seq![stop]) + q;
    let n = a.len() as int;
    number_is_digits(x);
    number_is_digits(y);
    assert forall|i: int| 0 <= i < dx.len() implies s[n + i] == #[trigger] dx[i] by {}
    assert forall|i: int| 0 <= i < dy.len() implies u[n + i] == #[trigger] dy[i] by {}
    assert(s[n + dx.len()] == stop);
    assert(u[n + dy.len()] == stop);
    if dx.len() < dy.len() {
        assert(u[n + dx.len()] == dy[dx.len() as int]);
        assert(false);
    }
    if dy.len() < dx.len() {
        assert(s[n + dy.len()] == dx[dy.len() as int]);
        assert(false);
    }
    assert forall|i: int| 0 <= i < dx.len() implies dx[i] == dy[i] by {
        assert(s[n + i] == dx[i]);
        assert(u[n + i] == dy[i]);
    }
    assert(dx =~= dy);
    let m = n + dx.len() + 1;
    assert(r == s.skip(m));
    assert(q == u.skip(m));
    int_tells_apart(x, y);
}

proof fn number_is_digits(n: int)
    ensures
        dec_int(n).len() > 0,
        forall|i: int|
            0 <= i < dec_int(n).len() ==> '0' <= #[trigger] dec_int(n)[i] <= '9' || dec_int(n)[i]
                == '-',
        n >= 0 ==> '0' <= dec_int(n)[0] <= '9',
        n < 0 ==> dec_int(n)[0] == '-',
{
    if n < 0 {
        dec_is_digits((-n) as nat);
        let s = dec_int(n);
        assert forall|i: int| 0 <= i < s.len() implies '0' <= #[trigger] s[i] <= '9' || s[i] == '-' by {
            if i > 0 {
                assert(s[i] == dec((-n) as nat)[i - 1]);
            }
        }
    } else {
        dec_is_digits(n as nat);
    }
}

/// Two integers have different decimal notations.
pub proof fn int_tells_apart(x: int, y: int)
    requires
        dec_int(x) == dec_int(y),
    ensures
        x == y,
{
    number_is_digits(x);
    number_is_digits(y);
    if x >= 0 {
        dec_tells_apart(x as nat, y as nat);
    } else {
        assert(dec((-x) as nat) == dec_int(x).skip(1));
        assert(dec((-y) as nat) == dec_int(y).skip(1));
        dec_tells_apart((-x) as nat, (-y) as nat);
    }
}

/// The names of element types are plain.
pub proof fn types_are_plain(d: DType)
    ensures
        is_plain(d.c_text()),
        is_plain(d.msl_text()),
        is_plain(d.triton_text()),
        is_plain(d.cann_text()),
{
    reveal_strlit("float");
    reveal_strlit("__half");
    reveal_strlit("__nv_bfloat16");
    reveal_strlit("long long");
    reveal_strlit("int");
    reveal_strlit("bool");
    reveal_strlit("half");
    reveal_strlit("bfloat");
    reveal_strlit("long");
    reveal_strlit("tl.float32");
    reveal_strlit("tl.float16");
    reveal_strlit("tl.bfloat16");
    reveal_strlit("tl.int64");
    reveal_strlit("tl.int32");
    reveal_strlit("tl.int1");
    reveal_strlit("__fp16");
    reveal_strlit("__bf16");
    reveal_strlit("int64_t");
    reveal_strlit("int32_t");
}

/// Whether a text has no underscores.
spec fn is_bare(s: Seq<char>) -> bool {
    forall|i: int| 0 <= i < s.len() ==> #[trigger] s[i] != '_'
}

proof fn number_is_bare(n: int)
    ensures
        is_bare(dec_int(n)),
{
    let m = if n < 0 {
        -n
    } else {
        n
    };
    dec_is_digits(m as nat);
    let s = dec_int(n);
    assert forall|i: int| 0 <= i < s.len() implies #[trigger] s[i] != '_' by {
        if n < 0 && i > 0 {
            assert(s[i] == dec(m as nat)[i - 1]);
        }
    }
}

proof fn list_is_bare(v: Seq<i64>)
    ensures
        is_bare(listed(v, ", "@)),
    decreases v.len(),
{
    reveal_strlit(", ");
    if v.len() == 1 {
        number_is_bare(v[0] as int);
    } else if v.len() > 1 {
        list_is_bare(v.drop_last());
        number_is_bare(v.last() as int);
    }
}

/// Lists of numbers are plain.
pub proof fn list_is_plain(v: Seq<i64>, default: Seq<char>)
    requires
        default.len() <= 2,
    ensures
        is_plain(listed(v, ", "@)),
        is_plain(default),
{
    list_is_bare(v);
    let s = listed(v, ", "@);
    assert forall|i: int| 0 <= i < s.len() - 2 implies !(#[trigger] begins_token(s, i)) by {
        assert(s[i] != '_');
    }
}

} // verus!
