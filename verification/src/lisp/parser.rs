//! From text to S-expressions.

use vstd::prelude::*;
use crate::lisp::{
    FloatRequest, Floats, FloatsModel, Outcome, OutcomeModel, RequestModel, Val, ValModel, models, pass_on,
};
use crate::text::{chars_of, is_white, str_eq, string_of, white};

verus! {

/// Whether a character is a decimal digit.
pub open spec fn is_digit(c: char) -> bool {
    '0' <= c && c <= '9'
}

/// Whether all characters are decimal digits.
pub open spec fn all_digits(s: Seq<char>) -> bool {
    forall|i: int| 0 <= i < s.len() ==> is_digit(#[trigger] s[i])
}

/// The number that a sequence of digits denotes.
pub open spec fn digits_value(s: Seq<char>) -> nat
    decreases s.len(),
{
    if s.len() == 0 {
        0
    } else {
        10 * digits_value(s.drop_last()) + (s.last() as nat - '0' as nat) as nat
    }
}

/// Whether the text starts with a sign.
pub open spec fn signed_text(s: Seq<char>) -> bool {
    s.len() > 0 && (s[0] == '+' || s[0] == '-')
}

/// The text without its sign.
pub open spec fn unsigned_text(s: Seq<char>) -> Seq<char> {
    if signed_text(s) {
        s.skip(1)
    } else {
        s
    }
}

/// The integer that a text denotes: an optional sign, then digits, with a
/// value that fits 64 bits.
pub open spec fn int_literal(s: Seq<char>) -> Option<i64> {
    let body = unsigned_text(s);
    let n = digits_value(body);
    if body.len() == 0 || !all_digits(body) {
        None
    } else if s[0] == '-' {
        if n <= 0x8000_0000_0000_0000 {
            Some((-n) as i64)
        } else {
            None
        }
    } else if n <= i64::MAX {
        Some(n as i64)
    } else {
        None
    }
}

/// Where the digits from `i` on end.
pub open spec fn digits_end(s: Seq<char>, i: nat) -> nat
    decreases s.len() - i,
{
    if i < s.len() && is_digit(s[i as int]) {
        digits_end(s, i + 1)
    } else {
        i
    }
}

/// Whether the text from `i` on is an optional sign and at least one digit.
pub open spec fn exponent_text(s: Seq<char>, i: nat) -> bool {
    let k = if i < s.len() && (s[i as int] == '+' || s[i as int] == '-') {
        i + 1
    } else {
        i
    };
    k < s.len() && digits_end(s, k) == s.len()
}

/// Whether the text is a decimal number: digits with an optional point among
/// or around them, and an optional exponent.
pub open spec fn number_text(s: Seq<char>) -> bool {
    let a = digits_end(s, 0);
    let point = a < s.len() && s[a as int] == '.';
    let e = if point {
        digits_end(s, a + 1)
    } else {
        a
    };
    let digits = if point {
        e - 1
    } else {
        e as int
    };
    &&& digits > 0
    &&& e == s.len() || ((s[e as int] == 'e' || s[e as int] == 'E') && exponent_text(s, e + 1))
}

/// A letter in lower case.
pub open spec fn lower(c: char) -> char {
    if 'A' <= c && c <= 'Z' {
        (c as u32 + 32) as char
    } else {
        c
    }
}

/// Whether a text is a word, upper and lower case letters taken as the same.
pub open spec fn is_word(s: Seq<char>, word: Seq<char>) -> bool {
    s.len() == word.len() && forall|i: int| 0 <= i < s.len() ==> lower(#[trigger] s[i]) == word[i]
}

/// Whether the text denotes a floating point number.
pub open spec fn float_literal(s: Seq<char>) -> bool {
    let body = unsigned_text(s);
    ||| is_word(body, "inf"@)
    ||| is_word(body, "infinity"@)
    ||| is_word(body, "nan"@)
    ||| number_text(body)
}

/// What an atom denotes.
pub open spec fn atom(s: Seq<char>, f: FloatsModel) -> (OutcomeModel<ValModel>, FloatsModel) {
    if s == "nil"@ {
        (OutcomeModel::Done(ValModel::Nil), f)
    } else if s == "true"@ {
        (OutcomeModel::Done(ValModel::Bool(true)), f)
    } else if s == "false"@ {
        (OutcomeModel::Done(ValModel::Bool(false)), f)
    } else if int_literal(s) is Some {
        (OutcomeModel::Done(ValModel::Int(int_literal(s)->0)), f)
    } else if float_literal(s) {
        match f.bits_for(RequestModel::Parse(s)) {
            (OutcomeModel::Done(b), g) => (OutcomeModel::Done(ValModel::Float(b)), g),
            (o, g) => (o.passed_on(), g),
        }
    } else {
        (OutcomeModel::Done(ValModel::Sym(s)), f)
    }
}

/// Where the line at `i` ends, behind its line feed.
pub open spec fn after_line(cs: Seq<char>, i: nat) -> nat
    decreases cs.len() - i,
{
    if i >= cs.len() {
        i
    } else if cs[i as int] == '\n' {
        i + 1
    } else {
        after_line(cs, i + 1)
    }
}

/// The end of a line lies behind its start and within the text.
pub proof fn after_line_bounds(cs: Seq<char>, i: nat)
    ensures
        i <= after_line(cs, i),
        i <= cs.len() ==> after_line(cs, i) <= cs.len(),
    decreases cs.len() - i,
{
    if i < cs.len() && cs[i as int] != '\n' {
        after_line_bounds(cs, i + 1);
    }
}

/// The first position from `i` on that is neither in white space nor in a
/// comment, which starts with `;` and takes the rest of its line.
pub open spec fn skip_blank(cs: Seq<char>, i: nat) -> nat
    decreases cs.len() - i,
{
    if i >= cs.len() {
        i
    } else if white(cs[i as int]) {
        skip_blank(cs, i + 1)
    } else if cs[i as int] == ';' {
        proof {
            after_line_bounds(cs, i + 1);
        }
        skip_blank(cs, after_line(cs, i + 1))
    } else {
        i
    }
}

/// Skipping blanks moves on within the text.
pub proof fn skip_blank_bounds(cs: Seq<char>, i: nat)
    ensures
        i <= skip_blank(cs, i),
        i <= cs.len() ==> skip_blank(cs, i) <= cs.len(),
    decreases cs.len() - i,
{
    if i < cs.len() {
        if white(cs[i as int]) {
            skip_blank_bounds(cs, i + 1);
        } else if cs[i as int] == ';' {
            after_line_bounds(cs, i + 1);
            skip_blank_bounds(cs, after_line(cs, i + 1));
        }
    }
}

/// The character that an escape sequence stands for.
pub open spec fn escaped(c: char) -> char {
    if c == 'n' {
        '\n'
    } else if c == 't' {
        '\t'
    } else {
        c
    }
}

/// The string whose part `acc` was read, from `i` on, and where it ends.
pub open spec fn string_from(cs: Seq<char>, i: nat, acc: Seq<char>) -> OutcomeModel<(Seq<char>, nat)>
    decreases cs.len() - i,
{
    if i >= cs.len() {
        OutcomeModel::Failed("未闭合的字符串字面量"@)
    } else if cs[i as int] == '"' {
        OutcomeModel::Done((acc, i + 1))
    } else if cs[i as int] == '\\' {
        if i + 1 >= cs.len() {
            OutcomeModel::Failed("转义序列意外结束"@)
        } else {
            string_from(cs, i + 2, acc.push(escaped(cs[i as int + 1])))
        }
    } else {
        string_from(cs, i + 1, acc.push(cs[i as int]))
    }
}

/// Whether a character ends an atom.
pub open spec fn ends_atom(c: char) -> bool {
    white(c) || c == '(' || c == ')'
}

/// Where the atom at `i` ends.
pub open spec fn atom_end(cs: Seq<char>, i: nat) -> nat
    decreases cs.len() - i,
{
    if i < cs.len() && !ends_atom(cs[i as int]) {
        atom_end(cs, i + 1)
    } else {
        i
    }
}

proof fn atom_end_bounds(cs: Seq<char>, i: nat)
    ensures
        i <= atom_end(cs, i),
        i <= cs.len() ==> atom_end(cs, i) <= cs.len(),
    decreases cs.len() - i,
{
    if i < cs.len() && !ends_atom(cs[i as int]) {
        atom_end_bounds(cs, i + 1);
    }
}

/// The expression at `i`, and where it ends.
pub open spec fn expr_at(cs: Seq<char>, i: nat, f: FloatsModel) -> (
    OutcomeModel<(ValModel, nat)>,
    FloatsModel,
)
    decreases cs.len() - i, 1nat,
{
    proof {
        skip_blank_bounds(cs, i);
    }
    let j = skip_blank(cs, i);
    if j >= cs.len() {
        (OutcomeModel::Failed("意外的输入结束"@), f)
    } else if cs[j as int] == '(' {
        items_from(cs, j + 1, Seq::empty(), f)
    } else if cs[j as int] == '"' {
        match string_from(cs, j + 1, Seq::empty()) {
            OutcomeModel::Done((s, k)) => (OutcomeModel::Done((ValModel::Str(s), k)), f),
            o => (o.passed_on(), f),
        }
    } else if cs[j as int] == '\'' {
        (OutcomeModel::Done((ValModel::Str("quote"@), j + 1)), f)
    } else {
        let k = atom_end(cs, j);
        match atom(cs.subrange(j as int, k as int), f) {
            (OutcomeModel::Done(v), g) => (OutcomeModel::Done((v, k)), g),
            (o, g) => (o.passed_on(), g),
        }
    }
}

/// The list whose items `acc` were read, from `i` on, and where it ends. An
/// item takes at least one character, so the position moves on.
pub open spec fn items_from(cs: Seq<char>, i: nat, acc: Seq<ValModel>, f: FloatsModel) -> (
    OutcomeModel<(ValModel, nat)>,
    FloatsModel,
)
    decreases cs.len() - i, 2nat,
{
    proof {
        skip_blank_bounds(cs, i);
    }
    let j = skip_blank(cs, i);
    if j >= cs.len() {
        (OutcomeModel::Failed("未闭合的 '('"@), f)
    } else if cs[j as int] == ')' {
        (OutcomeModel::Done((ValModel::List(acc), j + 1)), f)
    } else {
        match expr_at(cs, j, f) {
            (OutcomeModel::Done((v, k)), g) => if i < k <= cs.len() {
                items_from(cs, k, acc.push(v), g)
            } else {
                (OutcomeModel::Stuck, g)
            },
            (o, g) => (o, g),
        }
    }
}

/// The first expression of a text, or nil if there is none.
pub open spec fn parsed(cs: Seq<char>, f: FloatsModel) -> (OutcomeModel<ValModel>, FloatsModel) {
    let i = skip_blank(cs, 0);
    if i >= cs.len() {
        (OutcomeModel::Done(ValModel::Nil), f)
    } else {
        match expr_at(cs, i, f) {
            (OutcomeModel::Done((v, _)), g) => (OutcomeModel::Done(v), g),
            (o, g) => (o.passed_on(), g),
        }
    }
}

proof fn string_advances(cs: Seq<char>, i: nat, acc: Seq<char>)
    requires
        string_from(cs, i, acc) is Done,
    ensures
        i < string_from(cs, i, acc)->Done_0.1 <= cs.len(),
    decreases cs.len() - i,
{
    if i < cs.len() && cs[i as int] != '"' {
        if cs[i as int] == '\\' {
            string_advances(cs, i + 2, acc.push(escaped(cs[i as int + 1])));
        } else {
            string_advances(cs, i + 1, acc.push(cs[i as int]));
        }
    }
}

/// Reading an expression that does not start with `)` takes at least one
/// character.
proof fn expr_advances(cs: Seq<char>, i: nat, f: FloatsModel)
    requires
        expr_at(cs, i, f).0 is Done,
    ensures
        i <= expr_at(cs, i, f).0->Done_0.1 <= cs.len(),
        cs[skip_blank(cs, i) as int] != ')' ==> i < expr_at(cs, i, f).0->Done_0.1,
    decreases cs.len() - i, 1nat,
{
    skip_blank_bounds(cs, i);
    let j = skip_blank(cs, i);
    if cs[j as int] == '(' {
        items_advance(cs, j + 1, Seq::empty(), f);
    } else if cs[j as int] == '"' {
        string_advances(cs, j + 1, Seq::empty());
    } else if cs[j as int] == '\'' {
    } else {
        atom_end_bounds(cs, j);
        if cs[j as int] != ')' {
            assert(!white(cs[j as int])) by {
                skip_blank_stops(cs, i);
            }
            atom_end_bounds(cs, j + 1);
        }
    }
}

proof fn skip_blank_stops(cs: Seq<char>, i: nat)
    requires
        skip_blank(cs, i) < cs.len(),
    ensures
        !white(cs[skip_blank(cs, i) as int]),
        cs[skip_blank(cs, i) as int] != ';',
        skip_blank(cs, skip_blank(cs, i)) == skip_blank(cs, i),
    decreases cs.len() - i,
{
    if i < cs.len() {
        if white(cs[i as int]) {
            skip_blank_stops(cs, i + 1);
        } else if cs[i as int] == ';' {
            after_line_bounds(cs, i + 1);
            skip_blank_stops(cs, after_line(cs, i + 1));
        }
    }
}

proof fn items_advance(cs: Seq<char>, i: nat, acc: Seq<ValModel>, f: FloatsModel)
    requires
        items_from(cs, i, acc, f).0 is Done,
    ensures
        i < items_from(cs, i, acc, f).0->Done_0.1 <= cs.len(),
    decreases cs.len() - i, 2nat,
{
    skip_blank_bounds(cs, i);
    let j = skip_blank(cs, i);
    if j < cs.len() && cs[j as int] != ')' {
        let (o, g) = expr_at(cs, j, f);
        if o is Done {
            let (v, k) = o->Done_0;
            if i < k <= cs.len() {
                items_advance(cs, k, acc.push(v), g);
            }
        }
    }
}

proof fn expr_never_stuck(cs: Seq<char>, i: nat, f: FloatsModel)
    ensures
        !(expr_at(cs, i, f).0 is Stuck),
    decreases cs.len() - i, 1nat,
{
    skip_blank_bounds(cs, i);
    let j = skip_blank(cs, i);
    if j < cs.len() {
        if cs[j as int] == '(' {
            items_never_stuck(cs, j + 1, Seq::empty(), f);
        } else if cs[j as int] == '"' {
            string_never_stuck(cs, j + 1, Seq::empty());
        }
    }
}

proof fn string_never_stuck(cs: Seq<char>, i: nat, acc: Seq<char>)
    ensures
        !(string_from(cs, i, acc) is Stuck),
    decreases cs.len() - i,
{
    if i < cs.len() && cs[i as int] != '"' {
        if cs[i as int] == '\\' {
            if i + 1 < cs.len() {
                string_never_stuck(cs, i + 2, acc.push(escaped(cs[i as int + 1])));
            }
        } else {
            string_never_stuck(cs, i + 1, acc.push(cs[i as int]));
        }
    }
}

proof fn items_never_stuck(cs: Seq<char>, i: nat, acc: Seq<ValModel>, f: FloatsModel)
    ensures
        !(items_from(cs, i, acc, f).0 is Stuck),
    decreases cs.len() - i, 2nat,
{
    skip_blank_bounds(cs, i);
    let j = skip_blank(cs, i);
    if j < cs.len() && cs[j as int] != ')' {
        expr_never_stuck(cs, j, f);
        let (o, g) = expr_at(cs, j, f);
        if o is Done {
            let (v, k) = o->Done_0;
            skip_blank_stops(cs, i);
            expr_advances(cs, j, f);
            items_never_stuck(cs, k, acc.push(v), g);
        }
    }
}

/// Reading a text is never stuck: it has a result, fails, or asks for the
/// value of a float literal.
pub proof fn parsing_is_never_stuck(cs: Seq<char>, f: FloatsModel)
    ensures
        !(parsed(cs, f).0 is Stuck),
{
    expr_never_stuck(cs, skip_blank(cs, 0), f);
}

fn digit_at(v: &Vec<char>, i: usize) -> (r: bool)
    requires
        i < v@.len(),
    ensures
        r == is_digit(v@[i as int]),
{
    '0' <= v[i] && v[i] <= '9'
}

fn end_of_digits(v: &Vec<char>, start: usize) -> (r: usize)
    requires
        start <= v@.len(),
    ensures
        r == digits_end(v@, start as nat),
        start <= r <= v@.len(),
{
    let mut i: usize = start;
    while i < v.len() && digit_at(v, i)
        invariant
            start <= i <= v@.len(),
            digits_end(v@, start as nat) == digits_end(v@, i as nat),
        decreases v@.len() - i,
    {
        i += 1;
    }
    i
}

/// The characters without a leading sign.
fn drop_sign(v: &Vec<char>) -> (r: Vec<char>)
    ensures
        r@ == unsigned_text(v@),
{
    let from: usize = if v.len() > 0 && (v[0] == '+' || v[0] == '-') { 1 } else { 0 };
    let mut out: Vec<char> = Vec::new();
    let mut i: usize = from;
    while i < v.len()
        invariant
            from <= i <= v@.len(),
            out@ == v@.subrange(from as int, i as int),
        decreases v@.len() - i,
    {
        out.push(v[i]);
        i += 1;
    }
    assert(out@ == unsigned_text(v@));
    out
}

/// The value of digits, if all characters are digits, and if it is at most two
/// to the power 63.
fn value_of_digits(v: &Vec<char>) -> (r: Option<u64>)
    ensures
        match r {
            Some(n) => all_digits(v@) && n == digits_value(v@) && n <= 0x8000_0000_0000_0000,
            None => !all_digits(v@) || digits_value(v@) > 0x8000_0000_0000_0000,
        },
{
    let mut n: u128 = 0;
    let mut i: usize = 0;
    while i < v.len()
        invariant
            i <= v@.len(),
            forall|k: int| 0 <= k < i ==> is_digit(#[trigger] v@[k]),
            n <= 0x8_0000_0000_0000_0000,
            n <= 0x8000_0000_0000_0000 ==> n == digits_value(v@.take(i as int)),
            n > 0x8000_0000_0000_0000 ==> digits_value(v@.take(i as int)) > 0x8000_0000_0000_0000,
        decreases v@.len() - i,
    {
        if !digit_at(v, i) {
            return None;
        }
        assert(v@.take(i + 1).drop_last() == v@.take(i as int));
        if n <= 0x8000_0000_0000_0000 {
            n = n * 10 + (v[i] as u128 - '0' as u128);
        }
        i += 1;
    }
    assert(v@.take(i as int) == v@);
    if n <= 0x8000_0000_0000_0000 {
        Some(n as u64)
    } else {
        None
    }
}

pub(crate) fn parse_int(v: &Vec<char>) -> (r: Option<i64>)
    ensures
        r == int_literal(v@),
{
    let body = drop_sign(v);
    if body.len() == 0 {
        return None;
    }
    match value_of_digits(&body) {
        None => None,
        Some(n) => {
            if v[0] == '-' {
                if n == 0x8000_0000_0000_0000 {
                    Some(i64::MIN)
                } else {
                    Some(-(n as i64))
                }
            } else if n <= 0x7FFF_FFFF_FFFF_FFFF {
                Some(n as i64)
            } else {
                None
            }
        },
    }
}

pub(crate) fn lower_of(c: char) -> (r: char)
    ensures
        r == lower(c),
{
    if 'A' <= c && c <= 'Z' {
        (c as u8 + 32) as char
    } else {
        c
    }
}

fn matches_word(v: &Vec<char>, word: &str) -> (r: bool)
    ensures
        r == is_word(v@, word@),
{
    let w = chars_of(word);
    if v.len() != w.len() {
        return false;
    }
    let mut i: usize = 0;
    while i < v.len()
        invariant
            i <= v@.len(),
            v@.len() == w@.len(),
            w@ == word@,
            forall|k: int| 0 <= k < i ==> lower(#[trigger] v@[k]) == w@[k],
        decreases v@.len() - i,
    {
        if lower_of(v[i]) != w[i] {
            return false;
        }
        i += 1;
    }
    true
}

fn is_exponent(v: &Vec<char>, i: usize) -> (r: bool)
    requires
        i <= v@.len(),
    ensures
        r == exponent_text(v@, i as nat),
{
    let k: usize = if i < v.len() && (v[i] == '+' || v[i] == '-') { i + 1 } else { i };
    k < v.len() && end_of_digits(v, k) == v.len()
}

fn is_number(v: &Vec<char>) -> (r: bool)
    ensures
        r == number_text(v@),
{
    let a = end_of_digits(v, 0);
    let point = a < v.len() && v[a] == '.';
    let e: usize = if point { end_of_digits(v, a + 1) } else { a };
    let digits: usize = if point { e - 1 } else { e };
    if digits == 0 {
        return false;
    }
    e == v.len() || ((v[e] == 'e' || v[e] == 'E') && is_exponent(v, e + 1))
}

fn is_float(v: &Vec<char>) -> (r: bool)
    ensures
        r == float_literal(v@),
{
    let body = drop_sign(v);
    matches_word(&body, "inf") || matches_word(&body, "infinity") || matches_word(&body, "nan")
        || is_number(&body)
}

/// What an atom denotes.
pub fn atom_to_val(s: &str, floats: &mut Floats) -> (r: Outcome<Val>)
    ensures
        (r@, final(floats)@) == atom(s@, old(floats)@),
{
    if str_eq(s, "nil") {
        return Outcome::Done(Val::Nil);
    }
    if str_eq(s, "true") {
        return Outcome::Done(Val::Bool(true));
    }
    if str_eq(s, "false") {
        return Outcome::Done(Val::Bool(false));
    }
    let v = chars_of(s);
    if let Some(i) = parse_int(&v) {
        return Outcome::Done(Val::Int(i));
    }
    if is_float(&v) {
        return match floats.bits(FloatRequest::Parse(s.to_owned())) {
            Outcome::Done(b) => Outcome::Done(Val::Float(b)),
            o => pass_on(o),
        };
    }
    Outcome::Done(Val::Sym(s.to_owned()))
}

struct Parser {
    chars: Vec<char>,
    pos: usize,
}

impl Parser {
    spec fn wf(&self) -> bool {
        self.pos <= self.chars@.len()
    }

    fn skip_ws(&mut self)
        requires
            old(self).wf(),
        ensures
            final(self).wf(),
            final(self).chars == old(self).chars,
            final(self).pos == skip_blank(old(self).chars@, old(self).pos as nat),
    {
        while self.pos < self.chars.len()
            invariant
                self.wf(),
                self.chars == old(self).chars,
                skip_blank(old(self).chars@, old(self).pos as nat) == skip_blank(
                    self.chars@,
                    self.pos as nat,
                ),
            ensures
                self.wf(),
                self.chars == old(self).chars,
                self.pos == skip_blank(old(self).chars@, old(self).pos as nat),
            decreases self.chars@.len() - self.pos,
        {
            let c = self.chars[self.pos];
            if is_white(c) {
                self.pos = self.pos + 1;
            } else if c == ';' {
                let start = self.pos;
                self.pos = self.pos + 1;
                proof {
                    after_line_bounds(self.chars@, self.pos as nat);
                }
                while self.pos < self.chars.len() && self.chars[self.pos] != '\n'
                    invariant
                        self.wf(),
                        self.chars == old(self).chars,
                        start < self.pos,
                        after_line(self.chars@, (start + 1) as nat) == after_line(
                            self.chars@,
                            self.pos as nat,
                        ),
                    decreases self.chars@.len() - self.pos,
                {
                    self.pos = self.pos + 1;
                }
                if self.pos < self.chars.len() {
                    self.pos = self.pos + 1;
                }
            } else {
                break;
            }
        }
    }

    fn parse_expr(&mut self, floats: &mut Floats) -> (r: Outcome<Val>)
        requires
            old(self).wf(),
        ensures
            final(self).wf(),
            final(self).chars == old(self).chars,
            (with_end(r@, final(self).pos as nat), final(floats)@) == expr_at(
                old(self).chars@,
                old(self).pos as nat,
                old(floats)@,
            ),
        decreases old(self).chars@.len() - old(self).pos, 1nat,
    {
        proof {
            skip_blank_bounds(self.chars@, self.pos as nat);
        }
        self.skip_ws();
        if self.pos >= self.chars.len() {
            return Outcome::Failed("意外的输入结束".to_owned());
        }
        let c = self.chars[self.pos];
        if c == '(' {
            self.pos = self.pos + 1;
            self.parse_list(floats)
        } else if c == '"' {
            self.pos = self.pos + 1;
            match self.parse_string() {
                Outcome::Done(s) => Outcome::Done(Val::Str(s)),
                o => pass_on(o),
            }
        } else if c == '\'' {
            self.pos = self.pos + 1;
            Outcome::Done(Val::Str("quote".to_owned()))
        } else {
            self.parse_atom(floats)
        }
    }

    fn parse_string(&mut self) -> (r: Outcome<String>)
        requires
            old(self).wf(),
        ensures
            final(self).wf(),
            final(self).chars == old(self).chars,
            with_end(r@, final(self).pos as nat) == string_from(
                old(self).chars@,
                old(self).pos as nat,
                Seq::empty(),
            ),
    {
        let mut s = String::new();
        while self.pos < self.chars.len()
            invariant
                self.wf(),
                self.chars == old(self).chars,
                string_from(old(self).chars@, old(self).pos as nat, Seq::empty()) == string_from(
                    self.chars@,
                    self.pos as nat,
                    s@,
                ),
            decreases self.chars@.len() - self.pos,
        {
            let c = self.chars[self.pos];
            self.pos = self.pos + 1;
            if c == '"' {
                return Outcome::Done(s);
            } else if c == '\\' {
                if self.pos >= self.chars.len() {
                    return Outcome::Failed("转义序列意外结束".to_owned());
                }
                let e = self.chars[self.pos];
                self.pos = self.pos + 1;
                let x = if e == 'n' {
                    '\n'
                } else if e == 't' {
                    '\t'
                } else {
                    e
                };
                s.push(x);
            } else {
                s.push(c);
            }
        }
        Outcome::Failed("未闭合的字符串字面量".to_owned())
    }

    fn parse_list(&mut self, floats: &mut Floats) -> (r: Outcome<Val>)
        requires
            old(self).wf(),
        ensures
            final(self).wf(),
            final(self).chars == old(self).chars,
            (with_end(r@, final(self).pos as nat), final(floats)@) == items_from(
                old(self).chars@,
                old(self).pos as nat,
                Seq::empty(),
                old(floats)@,
            ),
        decreases old(self).chars@.len() - old(self).pos, 2nat,
    {
        let mut items: Vec<Val> = Vec::new();
        assert(models(items@) == Seq::<ValModel>::empty());
        loop
            invariant
                self.wf(),
                self.chars == old(self).chars,
                self.pos >= old(self).pos,
                items_from(old(self).chars@, old(self).pos as nat, Seq::empty(), old(floats)@)
                    == items_from(self.chars@, self.pos as nat, models(items@), floats@),
            decreases self.chars@.len() - self.pos,
        {
            let ghost cs = self.chars@;
            let ghost i = self.pos as nat;
            let ghost acc = models(items@);
            proof {
                skip_blank_bounds(cs, i);
            }
            self.skip_ws();
            let ghost j = self.pos as nat;
            if self.pos >= self.chars.len() {
                return Outcome::Failed("未闭合的 '('".to_owned());
            }
            if self.chars[self.pos] == ')' {
                self.pos = self.pos + 1;
                return Outcome::Done(Val::List(items));
            }
            let ghost f = floats@;
            proof {
                skip_blank_stops(cs, i);
            }
            match self.parse_expr(floats) {
                Outcome::Done(v) => {
                    proof {
                        expr_advances(cs, j, f);
                    }
                    items.push(v);
                    assert(models(items@) == acc.push(v@));
                },
                o => {
                    return o;
                },
            }
        }
    }

    fn parse_atom(&mut self, floats: &mut Floats) -> (r: Outcome<Val>)
        requires
            old(self).wf(),
        ensures
            final(self).wf(),
            final(self).chars == old(self).chars,
            final(self).pos == atom_end(old(self).chars@, old(self).pos as nat),
            (r@, final(floats)@) == atom(
                old(self).chars@.subrange(old(self).pos as int, final(self).pos as int),
                old(floats)@,
            ),
    {
        let start = self.pos;
        while self.pos < self.chars.len() && !(is_white(self.chars[self.pos])
            || self.chars[self.pos] == '(' || self.chars[self.pos] == ')')
            invariant
                self.wf(),
                self.chars == old(self).chars,
                start == old(self).pos,
                start <= self.pos,
                atom_end(self.chars@, start as nat) == atom_end(self.chars@, self.pos as nat),
            decreases self.chars@.len() - self.pos,
        {
            self.pos = self.pos + 1;
        }
        let s = string_of(&self.chars, start, self.pos);
        atom_to_val(s.as_str(), floats)
    }
}

/// A result together with the position behind it.
spec fn with_end<T>(o: OutcomeModel<T>, end: nat) -> OutcomeModel<(T, nat)> {
    match o {
        OutcomeModel::Done(t) => OutcomeModel::Done((t, end)),
        _ => o.passed_on(),
    }
}

/// Reads the first expression of a text; text behind it is not looked at.
pub fn parse(src: &str, floats: &mut Floats) -> (r: Outcome<Val>)
    ensures
        (r@, final(floats)@) == parsed(src@, old(floats)@),
        !(r is Stuck),
{
    proof {
        parsing_is_never_stuck(src@, floats@);
    }
    let mut p = Parser { chars: chars_of(src), pos: 0 };
    proof {
        skip_blank_bounds(src@, 0);
    }
    p.skip_ws();
    if p.pos >= p.chars.len() {
        return Outcome::Done(Val::Nil);
    }
    p.parse_expr(floats)
}

} // verus!
