//! Literals are read as what they stand for.

use vstd::prelude::*;
use crate::lisp::parser::{atom, int_literal, string_from};
use crate::lisp::{FloatsModel, OutcomeModel, ValModel};
use crate::text::{dec, dec_int, dec_is_digits};
use crate::text_laws::numbers_are_read_back;

verus! {

/// The decimal notation of a number is read as the number, and the names of nil and
/// of the truth values as these.
pub proof fn numbers_and_names_are_atoms(n: i64, f: FloatsModel)
    ensures
        atom(dec_int(n as int), f) == (OutcomeModel::<ValModel>::Done(ValModel::Int(n)), f),
        atom("nil"@, f) == (OutcomeModel::<ValModel>::Done(ValModel::Nil), f),
        atom("true"@, f) == (OutcomeModel::<ValModel>::Done(ValModel::Bool(true)), f),
        atom("false"@, f) == (OutcomeModel::<ValModel>::Done(ValModel::Bool(false)), f),
{
    reveal_strlit("nil");
    reveal_strlit("true");
    reveal_strlit("false");
    assert("nil"@[0] == 'n' && "true"@[0] == 't' && "false"@[0] == 'f');
    numbers_are_read_back(n);
    let s = dec_int(n as int);
    if n < 0 {
        assert(s[0] == '-');
    } else {
        dec_is_digits(n as nat);
        assert(s == dec(n as nat));
        assert('0' <= s[0] <= '9');
    }
    assert(int_literal(s) == Some(n));
}

/// A text as it stands between quotes: quotes and backslashes behind a backslash, and
/// the ends of lines and tabulators as letters behind one.
pub open spec fn escaping(s: Seq<char>) -> Seq<char>
    decreases s.len(),
{
    if s.len() == 0 {
        Seq::empty()
    } else {
        let rest = escaping(s.skip(1));
        if s[0] == '"' || s[0] == '\\' {
            seq!['\\', s[0]] + rest
        } else if s[0] == '\n' {
            seq!['\\', 'n'] + rest
        } else if s[0] == '\t' {
            seq!['\\', 't'] + rest
        } else {
            seq![s[0]] + rest
        }
    }
}

proof fn escaped_is_read(pre: Seq<char>, s: Seq<char>, post: Seq<char>, acc: Seq<char>)
    ensures
        string_from(pre + escaping(s) + seq!['"'] + post, pre.len(), acc) == OutcomeModel::<
            (Seq<char>, nat),
        >::Done((acc + s, pre.len() + escaping(s).len() + 1)),
    decreases s.len(),
{
    let cs = pre + escaping(s) + seq!['"'] + post;
    let i = pre.len() as int;
    if s.len() == 0 {
        assert(cs[i] == '"');
        assert(acc + s == acc);
    } else {
        let rest = escaping(s.skip(1));
        let e = escaping(s);
        let w = if s[0] == '"' || s[0] == '\\' {
            seq!['\\', s[0]]
        } else if s[0] == '\n' {
            seq!['\\', 'n']
        } else if s[0] == '\t' {
            seq!['\\', 't']
        } else {
            seq![s[0]]
        };
        assert(e == w + rest);
        assert(cs == (pre + w) + rest + seq!['"'] + post);
        assert(cs[i] == w[0]);
        if w.len() == 2 {
            assert(cs[i + 1] == w[1]);
        }
        escaped_is_read(pre + w, s.skip(1), post, acc.push(s[0]));
        assert(acc.push(s[0]) + s.skip(1) == acc + s);
    }
}

/// Every text can be written between quotes so that it is read back.
pub proof fn strings_are_read_back(s: Seq<char>, post: Seq<char>)
    ensures
        string_from(escaping(s) + seq!['"'] + post, 0, Seq::empty()) == OutcomeModel::<
            (Seq<char>, nat),
        >::Done((s, escaping(s).len() + 1)),
{
    let none = Seq::<char>::empty();
    escaped_is_read(none, s, post, none);
    assert(none + escaping(s) + seq!['"'] + post == escaping(s) + seq!['"'] + post);
    assert(none + s == s);
}

} // verus!
