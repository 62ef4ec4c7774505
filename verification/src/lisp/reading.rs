//! How the parts of an expression are read where they stand in a text.

use vstd::prelude::*;
use crate::lisp::parser::{
    atom, atom_end, digits_end, ends_atom, expr_at, is_digit, items_from, skip_blank, string_from,
};
use crate::lisp::{FloatsModel, OutcomeModel, ValModel};
use crate::text::{occurs_at, white};

verus! {

/// A text between quotes that says what it stands for, character by character.
pub open spec fn plain(s: Seq<char>) -> bool {
    forall|i: int| 0 <= i < s.len() ==> #[trigger] s[i] != '"' && s[i] != '\\'
}

/// A text that is read as a symbol, told by its first character and length.
pub open spec fn symbol(s: Seq<char>) -> bool {
    &&& s.len() > 0
    &&& 'a' <= s[0] <= 'z' || s[0] == '='
    &&& s[0] != 'f' && s[0] != 'i' && s[0] != 'n' && s[0] != 't'
    &&& forall|i: int| 0 <= i < s.len() ==> !ends_atom(#[trigger] s[i])
}

/// As many spaces.
pub open spec fn spaces(n: nat) -> Seq<char> {
    Seq::new(n, |i: int| ' ')
}

/// Where two texts stand one after the other, each of them stands.
pub proof fn both_occur(cs: Seq<char>, a: Seq<char>, b: Seq<char>, i: int)
    requires
        occurs_at(cs, a + b, i),
    ensures
        occurs_at(cs, a, i),
        occurs_at(cs, b, i + a.len()),
{
    let whole = cs.subrange(i, i + (a + b).len());
    assert(whole.subrange(0, a.len() as int) == a);
    assert(whole.subrange(a.len() as int, (a + b).len() as int) == b);
    assert(cs.subrange(i, i + a.len()) == whole.subrange(0, a.len() as int));
    assert(cs.subrange(i + a.len(), i + a.len() + b.len()) == whole.subrange(
        a.len() as int,
        (a + b).len() as int,
    ));
}

/// The characters of a text where it stands.
pub proof fn char_occurs(cs: Seq<char>, s: Seq<char>, i: int, k: int)
    requires
        occurs_at(cs, s, i),
        0 <= k < s.len(),
    ensures
        cs[i + k] == s[k],
        i + k < cs.len(),
{
    assert(cs.subrange(i, i + s.len())[k] == cs[i + k]);
}

/// Spaces are skipped.
pub proof fn gap_is_skipped(cs: Seq<char>, i: nat, n: nat)
    requires
        i + n < cs.len(),
        forall|k: int| i <= k < i + n ==> #[trigger] cs[k] == ' ',
        !white(cs[(i + n) as int]),
        cs[(i + n) as int] != ';',
    ensures
        skip_blank(cs, i) == i + n,
    decreases n,
{
    if n > 0 {
        assert(cs[i as int] == ' ');
        gap_is_skipped(cs, i + 1, (n - 1) as nat);
    }
}

/// A plain text is read up to the quote behind it.
proof fn text_is_read(cs: Seq<char>, i: nat, s: Seq<char>, acc: Seq<char>)
    requires
        occurs_at(cs, s, i as int),
        plain(s),
        i + s.len() < cs.len(),
        cs[(i + s.len()) as int] == '"',
    ensures
        string_from(cs, i, acc) == OutcomeModel::<(Seq<char>, nat)>::Done((acc + s, i + s.len() + 1)),
    decreases s.len(),
{
    if s.len() == 0 {
        assert(acc + s == acc);
    } else {
        char_occurs(cs, s, i as int, 0);
        assert(s == seq![s[0]] + s.skip(1));
        both_occur(cs, seq![s[0]], s.skip(1), i as int);
        text_is_read(cs, i + 1, s.skip(1), acc.push(s[0]));
        assert(acc.push(s[0]) + s.skip(1) == acc + s);
    }
}

/// A string is read.
pub proof fn string_is_read(cs: Seq<char>, i: nat, s: Seq<char>, f: FloatsModel)
    requires
        occurs_at(cs, seq!['"'] + s + seq!['"'], i as int),
        plain(s),
    ensures
        expr_at(cs, i, f) == (
            OutcomeModel::<(ValModel, nat)>::Done((ValModel::Str(s), i + s.len() + 2)),
            f,
        ),
        i + s.len() + 2 <= cs.len(),
        cs[i as int] == '"',
{
    let q = seq!['"'];
    both_occur(cs, q + s, q, i as int);
    both_occur(cs, q, s, i as int);
    char_occurs(cs, q, i as int, 0);
    char_occurs(cs, q, (i + 1 + s.len()) as int, 0);
    gap_is_skipped(cs, i, 0);
    text_is_read(cs, i + 1, s, Seq::empty());
    assert(Seq::<char>::empty() + s == s);
}

proof fn atom_ends(cs: Seq<char>, i: nat, s: Seq<char>)
    requires
        occurs_at(cs, s, i as int),
        forall|k: int| 0 <= k < s.len() ==> !ends_atom(#[trigger] s[k]),
        i + s.len() < cs.len(),
        ends_atom(cs[(i + s.len()) as int]),
    ensures
        atom_end(cs, i) == i + s.len(),
    decreases s.len(),
{
    if s.len() > 0 {
        char_occurs(cs, s, i as int, 0);
        assert(s == seq![s[0]] + s.skip(1));
        both_occur(cs, seq![s[0]], s.skip(1), i as int);
        atom_ends(cs, i + 1, s.skip(1));
    }
}

/// A symbol stands for itself.
proof fn symbol_is_symbol(s: Seq<char>, f: FloatsModel)
    requires
        symbol(s),
    ensures
        atom(s, f) == (OutcomeModel::<ValModel>::Done(ValModel::Sym(s)), f),
{
    reveal_strlit("nil");
    reveal_strlit("true");
    reveal_strlit("false");
    reveal_strlit("inf");
    reveal_strlit("infinity");
    reveal_strlit("nan");
    assert(!is_digit(s[0]));
    assert(digits_end(s, 0) == 0);
}

/// A symbol is read up to what ends it.
pub proof fn symbol_is_read(cs: Seq<char>, i: nat, s: Seq<char>, f: FloatsModel)
    requires
        occurs_at(cs, s, i as int),
        symbol(s),
        i + s.len() < cs.len(),
        ends_atom(cs[(i + s.len()) as int]),
    ensures
        expr_at(cs, i, f) == (
            OutcomeModel::<(ValModel, nat)>::Done((ValModel::Sym(s), i + s.len())),
            f,
        ),
        cs[i as int] == s[0],
{
    char_occurs(cs, s, i as int, 0);
    assert(!ends_atom(s[0]));
    gap_is_skipped(cs, i, 0);
    atom_ends(cs, i, s);
    symbol_is_symbol(s, f);
}

/// An item behind spaces is added to its list.
pub proof fn item_is_added(
    cs: Seq<char>,
    i: nat,
    gap: nat,
    acc: Seq<ValModel>,
    v: ValModel,
    end: nat,
    f: FloatsModel,
)
    requires
        i + gap < end <= cs.len(),
        forall|k: int| i <= k < i + gap ==> #[trigger] cs[k] == ' ',
        !white(cs[(i + gap) as int]),
        cs[(i + gap) as int] != ';',
        cs[(i + gap) as int] != ')',
        expr_at(cs, i + gap, f) == (OutcomeModel::<(ValModel, nat)>::Done((v, end)), f),
    ensures
        items_from(cs, i, acc, f) == items_from(cs, end, acc.push(v), f),
{
    gap_is_skipped(cs, i, gap);
}

/// A list ends with its parenthesis.
pub proof fn list_ends(cs: Seq<char>, i: nat, acc: Seq<ValModel>, f: FloatsModel)
    requires
        i < cs.len(),
        cs[i as int] == ')',
    ensures
        items_from(cs, i, acc, f) == (
            OutcomeModel::<(ValModel, nat)>::Done((ValModel::List(acc), i + 1)),
            f,
        ),
{
    gap_is_skipped(cs, i, 0);
}

/// A list starts with its parenthesis.
pub proof fn list_starts(cs: Seq<char>, i: nat, f: FloatsModel)
    requires
        i < cs.len(),
        cs[i as int] == '(',
    ensures
        expr_at(cs, i, f) == items_from(cs, i + 1, Seq::empty(), f),
{
    gap_is_skipped(cs, i, 0);
}

} // verus!
