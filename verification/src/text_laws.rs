//! What holds of taking texts apart.

use vstd::prelude::*;
use crate::backend::dialect::joined;
use crate::lisp::parser::{all_digits, digits_value, int_literal, is_digit};
use crate::text::{
    dec, dec_int, dec_is_digits, digit, find_from, parts, trim_end, trim_end_char,
    trim_start, trim_start_char, trimmed, white,
};

verus! {

/// Whether a character occurs in a text.
pub open spec fn occurs_in(s: Seq<char>, c: char) -> bool {
    exists|i: int| 0 <= i < s.len() && #[trigger] s[i] == c
}

/// The place that is found is the first one that holds the character, and one is
/// found exactly if there is one.
pub proof fn first_place_is_found(s: Seq<char>, c: char, i: nat)
    requires
        i <= s.len(),
    ensures
        match find_from(s, c, i) {
            Some(k) => i <= k < s.len() && s[k as int] == c && forall|j: int|
                i <= j < k ==> #[trigger] s[j] != c,
            None => forall|j: int| i <= j < s.len() ==> #[trigger] s[j] != c,
        },
    decreases s.len() - i,
{
    if i < s.len() && s[i as int] != c {
        first_place_is_found(s, c, i + 1);
    }
}

/// A character behind a text without it is found behind that text.
pub proof fn separator_is_found(a: Seq<char>, c: char, b: Seq<char>)
    requires
        !occurs_in(a, c),
    ensures
        find_from(a + seq![c] + b, c, 0) == Some(a.len()),
{
    let s = a + seq![c] + b;
    first_place_is_found(s, c, 0);
    assert(s[a.len() as int] == c);
    match find_from(s, c, 0) {
        Some(k) => {
            if k < a.len() {
                assert(a[k as int] == c);
            }
        },
        None => {},
    }
}

/// A text without the separator is its only part.
pub proof fn one_part(s: Seq<char>, c: char)
    requires
        !occurs_in(s, c),
    ensures
        parts(s, c) == seq![s],
{
    first_place_is_found(s, c, 0);
}

/// The parts of two texts with the separator between them are the parts of the one
/// and then those of the other.
pub proof fn parts_of_both(s: Seq<char>, c: char, t: Seq<char>)
    ensures
        parts(s + seq![c] + t, c) == parts(s, c) + parts(t, c),
    decreases s.len(),
{
    let u = s + seq![c] + t;
    first_place_is_found(s, c, 0);
    first_place_is_found(u, c, 0);
    assert(u[s.len() as int] == c);
    match find_from(s, c, 0) {
        None => {
            let k = find_from(u, c, 0)->0;
            assert(k == s.len()) by {
                if k < s.len() {
                    assert(s[k as int] == u[k as int]);
                }
            }
            assert(u.take(k as int) == s);
            assert(u.skip(k as int + 1) == t);
        },
        Some(i) => {
            let k = find_from(u, c, 0)->0;
            assert(u[i as int] == s[i as int]);
            assert(k == i) by {
                if k < i {
                    assert(s[k as int] == u[k as int]);
                }
            }
            let rest = s.skip(i as int + 1);
            parts_of_both(rest, c, t);
            assert(u.take(i as int) == s.take(i as int));
            assert(u.skip(i as int + 1) == rest + seq![c] + t);
            assert(seq![s.take(i as int)] + (parts(rest, c) + parts(t, c)) == (seq![s.take(i as int)]
                + parts(rest, c)) + parts(t, c));
        },
    }
}

/// The parts of a text, joined again, are the text, and no part holds the
/// separator.
pub proof fn parts_make_the_text(s: Seq<char>, c: char)
    ensures
        parts(s, c).len() > 0,
        joined(parts(s, c), seq![c]) == s,
        forall|i: int| 0 <= i < parts(s, c).len() ==> !occurs_in(#[trigger] parts(s, c)[i], c),
    decreases s.len(),
{
    first_place_is_found(s, c, 0);
    match find_from(s, c, 0) {
        None => {
            assert(parts(s, c) == seq![s]);
        },
        Some(k) => {
            let a = s.take(k as int);
            let rest = s.skip(k as int + 1);
            parts_make_the_text(rest, c);
            joining_in_front(a, parts(rest, c), seq![c]);
            assert(a + seq![c] + rest == s);
            let ps = parts(s, c);
            assert forall|i: int| 0 <= i < ps.len() implies !occurs_in(#[trigger] ps[i], c) by {
                if i == 0 {
                    assert(ps[0] == a);
                    if occurs_in(a, c) {
                        let j = choose|j: int| 0 <= j < a.len() && #[trigger] a[j] == c;
                        assert(s[j] == c);
                    }
                } else {
                    assert(ps[i] == parts(rest, c)[i - 1]);
                }
            }
        },
    }
}

/// Joining a text in front of others.
proof fn joining_in_front(a: Seq<char>, v: Seq<Seq<char>>, sep: Seq<char>)
    requires
        v.len() > 0,
    ensures
        joined(seq![a] + v, sep) == a + sep + joined(v, sep),
    decreases v.len(),
{
    let w = seq![a] + v;
    if v.len() == 1 {
        assert(w.drop_last() == seq![a]);
        assert(joined(w.drop_last(), sep) == a);
    } else {
        joining_in_front(a, v.drop_last(), sep);
        assert(w.drop_last() == seq![a] + v.drop_last());
        assert(a + sep + joined(v.drop_last(), sep) + sep + v.last() == a + sep + (joined(
            v.drop_last(),
            sep,
        ) + sep + v.last()));
    }
}

/// Whether all characters of a text are white space.
pub open spec fn all_white(s: Seq<char>) -> bool {
    forall|i: int| 0 <= i < s.len() ==> white(#[trigger] s[i])
}

/// Whether a text neither begins nor ends with white space.
pub open spec fn is_tight(s: Seq<char>) -> bool {
    s.len() > 0 ==> !white(s[0]) && !white(s[s.len() - 1])
}

/// Leading white space goes.
proof fn leading_goes(a: Seq<char>, s: Seq<char>)
    requires
        all_white(a),
        s.len() > 0 ==> !white(s[0]),
    ensures
        trim_start(a + s) == s,
    decreases a.len(),
{
    if a.len() > 0 {
        assert(white(a[0]));
        assert((a + s).skip(1) == a.skip(1) + s);
        assert(all_white(a.skip(1))) by {
            assert forall|i: int| 0 <= i < a.skip(1).len() implies white(#[trigger] a.skip(1)[i]) by {
                assert(white(a[i + 1]));
            }
        }
        leading_goes(a.skip(1), s);
    } else {
        assert(a + s == s);
    }
}

/// Trailing white space goes.
proof fn trailing_goes(s: Seq<char>, b: Seq<char>)
    requires
        all_white(b),
        s.len() > 0 ==> !white(s[s.len() - 1]),
    ensures
        trim_end(s + b) == s,
    decreases b.len(),
{
    if b.len() > 0 {
        assert(white(b[b.len() - 1]));
        assert((s + b).drop_last() == s + b.drop_last());
        assert(all_white(b.drop_last())) by {
            assert forall|i: int| 0 <= i < b.drop_last().len() implies white(
                #[trigger] b.drop_last()[i],
            ) by {
                assert(white(b[i]));
            }
        }
        trailing_goes(s, b.drop_last());
    } else {
        assert(s + b == s);
    }
}

/// Trimming takes off the white space around a text, all of it and nothing else.
pub proof fn trimming_takes_white_space(a: Seq<char>, s: Seq<char>, b: Seq<char>)
    requires
        all_white(a),
        is_tight(s),
        all_white(b),
    ensures
        trimmed(a + s + b) == s,
{
    if s.len() > 0 {
        assert(a + s + b == a + (s + b));
        leading_goes(a, s + b);
        trailing_goes(s, b);
    } else {
        let w = a + b;
        assert(a + s + b == w + Seq::<char>::empty());
        assert(all_white(w)) by {
            assert forall|i: int| 0 <= i < w.len() implies white(#[trigger] w[i]) by {
                if i < a.len() {
                    assert(white(a[i]));
                } else {
                    assert(white(b[i - a.len()]));
                }
            }
        }
        leading_goes(w, Seq::empty());
        assert(trim_end(Seq::<char>::empty()) == Seq::<char>::empty());
        assert(s == Seq::<char>::empty());
    }
}

/// A tight text is not changed by trimming.
pub proof fn tight_stays(s: Seq<char>)
    requires
        is_tight(s),
    ensures
        trimmed(s) == s,
{
    let none = Seq::<char>::empty();
    trimming_takes_white_space(none, s, none);
    assert(none + s + none == s);
}

/// A trimmed text is tight.
pub proof fn trimmed_is_tight(s: Seq<char>)
    ensures
        is_tight(trimmed(s)),
{
    start_is_tight(s);
    end_is_tight(trim_start(s));
}

proof fn start_is_tight(s: Seq<char>)
    ensures
        trim_start(s).len() > 0 ==> !white(trim_start(s)[0]),
    decreases s.len(),
{
    if s.len() > 0 && white(s[0]) {
        start_is_tight(s.skip(1));
    }
}

proof fn end_is_tight(s: Seq<char>)
    ensures
        trim_end(s).len() > 0 ==> !white(trim_end(s)[trim_end(s).len() - 1]) && trim_end(s)[0]
            == s[0],
    decreases s.len(),
{
    if s.len() > 0 && white(s.last()) {
        end_is_tight(s.drop_last());
    }
}

/// Characters are taken off the end as long as they are the given one.
pub proof fn closing_goes(s: Seq<char>, c: char)
    requires
        s.len() > 0 ==> s[s.len() - 1] != c,
    ensures
        trim_end_char(s + seq![c], c) == s,
        trim_end_char(s, c) == s,
{
    assert(trim_end_char(s, c) == s);
    assert((s + seq![c]).drop_last() == s);
    assert((s + seq![c]).last() == c);
}

/// And off the start.
pub proof fn opening_goes(s: Seq<char>, c: char)
    requires
        s.len() > 0 ==> s[0] != c,
    ensures
        trim_start_char(seq![c] + s, c) == s,
        trim_start_char(s, c) == s,
{
    assert(trim_start_char(s, c) == s);
    assert((seq![c] + s).skip(1) == s);
    assert((seq![c] + s)[0] == c);
}

/// A decimal notation denotes the number.
proof fn decimal_is_read(n: nat)
    ensures
        digits_value(dec(n)) == n,
        all_digits(dec(n)),
    decreases n,
{
    dec_is_digits(n);
    if n < 10 {
        assert(dec(n).drop_last() == Seq::<char>::empty());
        assert(digits_value(Seq::<char>::empty()) == 0);
        assert(digit(n) as nat == 48 + n);
    } else {
        decimal_is_read(n / 10);
        assert(dec(n).drop_last() == dec(n / 10));
        assert(digit(n % 10) as nat == 48 + n % 10);
    }
}

/// The decimal notation of a number is read as the number.
pub proof fn numbers_are_read_back(n: i64)
    ensures
        int_literal(dec_int(n as int)) == Some(n),
{
    let s = dec_int(n as int);
    if n < 0 {
        let d = dec((-n) as nat);
        decimal_is_read((-n) as nat);
        dec_is_digits((-n) as nat);
        assert(s.skip(1) == d);
    } else {
        decimal_is_read(n as nat);
        dec_is_digits(n as nat);
        assert(is_digit(s[0]));
    }
}

} // verus!
