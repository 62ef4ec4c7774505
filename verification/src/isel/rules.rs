//! Rules, and reading them from text.

use vstd::prelude::*;
use vstd::utf8::{
    decode_utf8, encode_utf8, encode_utf8_valid_utf8,
    is_char_boundary_iff_not_is_continuation_byte, is_continuation_byte, valid_utf8,
    valid_utf8_concat, valid_utf8_split,
};
use crate::base::{ErrorKind, ErrorModel, NeutronError};
use crate::bytes::utf8_str;
use crate::lisp::parser::{parse, parsed};
use crate::lisp::show::{detail, detailed};
use crate::lisp::{Floats, FloatsModel, Outcome, OutcomeModel, Val, ValModel, models};
use crate::text::{dec, push_dec, quote_char, quoted_char, str_eq};

verus! {

/// A rule: its condition, what it emits, and its text.
#[derive(Debug)]
pub struct Rule {
    pub cond: Val,
    pub emit: Val,
    pub src: String,
}

/// What a rule says.
pub struct RuleModel {
    pub cond: ValModel,
    pub emit: ValModel,
    pub src: Seq<char>,
}

impl View for Rule {
    type V = RuleModel;

    open spec fn view(&self) -> RuleModel {
        RuleModel { cond: self.cond@, emit: self.emit@, src: self.src@ }
    }
}

/// What the rules of a sequence say.
pub open spec fn rule_models(s: Seq<Rule>) -> Seq<RuleModel> {
    Seq::new(s.len(), |i: int| s[i]@)
}

impl Clone for Rule {
    fn clone(&self) -> (r: Self)
        ensures
            r@ == self@,
    {
        Rule { cond: self.cond.clone(), emit: self.emit.clone(), src: self.src.clone() }
    }
}

/// An error of instruction selection.
pub open spec fn isel_error(text: Seq<char>) -> ErrorModel {
    (ErrorKind::Isel, text)
}

pub(crate) fn isel_failure(text: &str) -> (r: NeutronError)
    ensures
        r@ == isel_error(text@),
{
    NeutronError::Isel(text.to_owned())
}

/// The rule with the clauses `items` from `k` on, where `cond` and `emit` are
/// what the clauses before say.
pub open spec fn clauses_from(
    items: Seq<ValModel>,
    k: nat,
    cond: ValModel,
    emit: ValModel,
    src: Seq<char>,
    f: FloatsModel,
) -> (OutcomeModel<RuleModel, ErrorModel>, FloatsModel)
    decreases items.len() - k,
{
    if k >= items.len() {
        (OutcomeModel::Done(RuleModel { cond, emit, src }), f)
    } else {
        match items[k as int] {
            ValModel::List(sub) => if sub.len() == 0 {
                clauses_from(items, k + 1, cond, emit, src, f)
            } else if sub[0] == ValModel::Sym("when"@) {
                if sub.len() < 2 {
                    (OutcomeModel::Failed(isel_error("when 缺少条件表达式"@)), f)
                } else {
                    clauses_from(items, k + 1, sub[1], emit, src, f)
                }
            } else if sub[0] == ValModel::Sym("emit"@) {
                clauses_from(items, k + 1, cond, items[k as int], src, f)
            } else {
                match detailed(sub[0], f) {
                    (OutcomeModel::Done(t), g) => (
                        OutcomeModel::Failed(isel_error("未知 rule 子句: "@ + t)),
                        g,
                    ),
                    (OutcomeModel::Failed(t), g) => (OutcomeModel::Failed(isel_error(t)), g),
                    (OutcomeModel::Stuck, g) => (OutcomeModel::Stuck, g),
                    (OutcomeModel::Needs(q), g) => (OutcomeModel::Needs(q), g),
                }
            },
            _ => (OutcomeModel::Failed(isel_error("rule 子句必须是 list"@)), f),
        }
    }
}

/// The rule that an expression stands for.
pub open spec fn rule_of(v: ValModel, src: Seq<char>, f: FloatsModel) -> (
    OutcomeModel<RuleModel, ErrorModel>,
    FloatsModel,
) {
    match v {
        ValModel::List(items) => if items.len() == 0 || items[0] != ValModel::Sym("rule"@) {
            (OutcomeModel::Failed(isel_error("规则必须以 (rule ...) 开头"@)), f)
        } else {
            clauses_from(items, 1, ValModel::Nil, ValModel::Nil, src, f)
        },
        _ => (OutcomeModel::Failed(isel_error("规则必须是 list"@)), f),
    }
}

/// The rule that a text stands for.
pub open spec fn parsed_rule(src: Seq<char>, f: FloatsModel) -> (
    OutcomeModel<RuleModel, ErrorModel>,
    FloatsModel,
) {
    match parsed(src, f) {
        (OutcomeModel::Done(v), g) => rule_of(v, src, g),
        (OutcomeModel::Failed(e), g) => (
            OutcomeModel::Failed(isel_error("规则解析失败: "@ + e)),
            g,
        ),
        (OutcomeModel::Stuck, g) => (OutcomeModel::Stuck, g),
        (OutcomeModel::Needs(q), g) => (OutcomeModel::Needs(q), g),
    }
}

/// Whether an expression is the given symbol.
pub(crate) fn is_symbol(v: &Val, name: &str) -> (r: bool)
    ensures
        r == (v@ == ValModel::Sym(name@)),
{
    match v.as_sym() {
        Some(s) => str_eq(s, name),
        None => false,
    }
}

fn read_clauses(items: &Vec<Val>, src: &str, floats: &mut Floats) -> (r: Outcome<Rule, NeutronError>)
    requires
        items@.len() > 0,
    ensures
        (r@, final(floats)@) == clauses_from(
            models(items@),
            1,
            ValModel::Nil,
            ValModel::Nil,
            src@,
            old(floats)@,
        ),
{
    let mut cond = Val::Nil;
    let mut emit = Val::Nil;
    let mut k: usize = 1;
    while k < items.len()
        invariant
            1 <= k <= items@.len(),
            clauses_from(models(items@), 1, ValModel::Nil, ValModel::Nil, src@, old(floats)@)
                == clauses_from(models(items@), k as nat, cond@, emit@, src@, floats@),
        decreases items@.len() - k,
    {
        assert(models(items@)[k as int] == items@[k as int]@);
        match &items[k] {
            Val::List(sub) => {
                if sub.len() > 0 {
                    assert(models(sub@)[0] == sub@[0]@);
                    if is_symbol(&sub[0], "when") {
                        if sub.len() < 2 {
                            return Outcome::Failed(isel_failure("when 缺少条件表达式"));
                        }
                        assert(models(sub@)[1] == sub@[1]@);
                        cond = sub[1].clone();
                    } else if is_symbol(&sub[0], "emit") {
                        emit = items[k].clone();
                    } else {
                        match detail(&sub[0], floats) {
                            Outcome::Done(t) => {
                                let mut s = "未知 rule 子句: ".to_owned();
                                s.append(t.as_str());
                                return Outcome::Failed(NeutronError::Isel(s));
                            },
                            Outcome::Failed(t) => {
                                return Outcome::Failed(NeutronError::Isel(t));
                            },
                            Outcome::Stuck => {
                                return Outcome::Stuck;
                            },
                            Outcome::Needs(q) => {
                                return Outcome::Needs(q);
                            },
                        }
                    }
                }
            },
            _ => {
                return Outcome::Failed(isel_failure("rule 子句必须是 list"));
            },
        }
        k += 1;
    }
    Outcome::Done(Rule { cond, emit, src: src.to_owned() })
}

/// Reads a rule.
pub fn parse_rule(src: &str, floats: &mut Floats) -> (r: Outcome<Rule, NeutronError>)
    ensures
        (r@, final(floats)@) == parsed_rule(src@, old(floats)@),
{
    match parse(src, floats) {
        Outcome::Done(v) => match &v {
            Val::List(items) => {
                if items.len() == 0 {
                    return Outcome::Failed(isel_failure("规则必须以 (rule ...) 开头"));
                }
                assert(models(items@)[0] == items@[0]@);
                if !is_symbol(&items[0], "rule") {
                    return Outcome::Failed(isel_failure("规则必须以 (rule ...) 开头"));
                }
                read_clauses(items, src, floats)
            },
            _ => Outcome::Failed(isel_failure("规则必须是 list")),
        },
        Outcome::Failed(e) => {
            let mut s = "规则解析失败: ".to_owned();
            s.append(e.as_str());
            Outcome::Failed(NeutronError::Isel(s))
        },
        Outcome::Stuck => Outcome::Stuck,
        Outcome::Needs(q) => Outcome::Needs(q),
    }
}

/// The position of the line feed from `i` on, or the end.
pub open spec fn line_end(b: Seq<u8>, i: nat) -> nat
    decreases b.len() - i,
{
    if i >= b.len() || b[i as int] == 10 {
        i
    } else {
        line_end(b, i + 1)
    }
}

/// The end of a line does not lie before its start.
pub proof fn line_end_bounds(b: Seq<u8>, i: nat)
    ensures
        i <= line_end(b, i),
        i <= b.len() ==> line_end(b, i) <= b.len(),
    decreases b.len() - i,
{
    if i < b.len() && b[i as int] != 10 {
        line_end_bounds(b, i + 1);
    }
}

/// Whether a byte is an ASCII blank.
pub open spec fn ascii_blank(c: u8) -> bool {
    c == 9 || c == 10 || c == 12 || c == 13 || c == 32
}

/// The position of the `)` that closes the `depth` parentheses open at `i`.
/// Comments, from `;` to the end of the line, do not count.
pub open spec fn closing(b: Seq<u8>, i: nat, depth: nat) -> Option<nat>
    decreases b.len() - i,
{
    if i >= b.len() {
        None
    } else if b[i as int] == 40 {
        closing(b, i + 1, depth + 1)
    } else if b[i as int] == 41 {
        if depth <= 1 {
            Some(i)
        } else {
            closing(b, i + 1, (depth - 1) as nat)
        }
    } else if b[i as int] == 59 {
        proof {
            line_end_bounds(b, i + 1);
        }
        closing(b, line_end(b, i + 1), depth)
    } else {
        closing(b, i + 1, depth)
    }
}

/// The `)` that is found closes: it stands behind the start, within the text.
pub proof fn closing_is_closing(b: Seq<u8>, i: nat, depth: nat)
    requires
        closing(b, i, depth) is Some,
    ensures
        i <= closing(b, i, depth)->0 < b.len(),
        b[closing(b, i, depth)->0 as int] == 41,
    decreases b.len() - i,
{
    if i < b.len() {
        if b[i as int] == 40 {
            closing_is_closing(b, i + 1, depth + 1);
        } else if b[i as int] == 41 {
            if depth > 1 {
                closing_is_closing(b, i + 1, (depth - 1) as nat);
            }
        } else if b[i as int] == 59 {
            line_end_bounds(b, i + 1);
            closing_is_closing(b, line_end(b, i + 1), depth);
        } else {
            closing_is_closing(b, i + 1, depth);
        }
    }
}

/// The complaint about a byte that starts no rule.
pub open spec fn unexpected_byte(i: nat, c: u8) -> ErrorModel {
    isel_error("规则源第 "@ + dec(i) + " 字节处期望 '('，得到 "@ + quoted_char(c as char))
}

/// `acc`, then the rules in the bytes of a text from `i` on.
pub open spec fn rules_from(b: Seq<u8>, i: nat, acc: Seq<RuleModel>, f: FloatsModel) -> (
    OutcomeModel<Seq<RuleModel>, ErrorModel>,
    FloatsModel,
)
    decreases b.len() - i,
{
    if i >= b.len() {
        (OutcomeModel::Done(acc), f)
    } else if b[i as int] == 59 {
        proof {
            line_end_bounds(b, i + 1);
        }
        rules_from(b, line_end(b, i + 1), acc, f)
    } else if ascii_blank(b[i as int]) {
        rules_from(b, i + 1, acc, f)
    } else if b[i as int] != 40 {
        (OutcomeModel::Failed(unexpected_byte(i, b[i as int])), f)
    } else {
        match closing(b, i, 0) {
            None => (OutcomeModel::Failed(isel_error("规则源括号不配平"@)), f),
            Some(j) => if i <= j < b.len() {
                match parsed_rule(decode_utf8(b.subrange(i as int, j as int + 1)), f) {
                    (OutcomeModel::Done(r), g) => rules_from(b, j + 1, acc.push(r), g),
                    (o, g) => (o.passed_on(), g),
                }
            } else {
                (OutcomeModel::Stuck, f)
            },
        }
    }
}

/// A part of a text from an opening to a closing parenthesis is valid text.
proof fn part_is_text(b: Seq<u8>, i: int, j: int)
    requires
        valid_utf8(b),
        0 <= i <= j < b.len(),
        b[i] == 40,
        b[j] == 41,
    ensures
        valid_utf8(b.subrange(i, j + 1)),
{
    assert(!is_continuation_byte(40u8) && !is_continuation_byte(41u8)) by {
        assert(40u8 & 0xC0 != 0x80 && 41u8 & 0xC0 != 0x80) by (bit_vector);
    }
    is_char_boundary_iff_not_is_continuation_byte(b, j);
    valid_utf8_split(b, j);
    let front = b.subrange(0, j);
    if i < j {
        is_char_boundary_iff_not_is_continuation_byte(front, i);
        valid_utf8_split(front, i);
    }
    let mid = front.subrange(i, j);
    if i == j {
        assert(mid.len() == 0);
    }
    let last = seq![41u8];
    assert(valid_utf8(last)) by {
        reveal_with_fuel(valid_utf8, 2);
        assert(41u8 & 0x80 == 0) by (bit_vector);
    }
    valid_utf8_concat(mid, last);
    assert(b.subrange(i, j + 1) == mid + last);
}

fn end_of_line(b: &[u8], start: usize) -> (r: usize)
    requires
        start <= b@.len(),
    ensures
        r == line_end(b@, start as nat),
        start <= r <= b@.len(),
{
    let mut i: usize = start;
    while i < b.len() && b[i] != 10
        invariant
            start <= i <= b@.len(),
            line_end(b@, start as nat) == line_end(b@, i as nat),
        decreases b@.len() - i,
    {
        i += 1;
    }
    i
}

fn find_closing(b: &[u8], start: usize) -> (r: Option<usize>)
    requires
        start < b@.len(),
    ensures
        match r {
            Some(j) => closing(b@, start as nat, 0) == Some(j as nat),
            None => closing(b@, start as nat, 0) is None,
        },
{
    let mut i: usize = start;
    let mut depth: usize = 0;
    while i < b.len()
        invariant
            start <= i <= b@.len(),
            depth <= i - start,
            closing(b@, start as nat, 0) == closing(b@, i as nat, depth as nat),
        decreases b@.len() - i,
    {
        let c = b[i];
        if c == 40 {
            depth += 1;
            i += 1;
        } else if c == 41 {
            if depth <= 1 {
                return Some(i);
            }
            depth -= 1;
            i += 1;
        } else if c == 59 {
            i = end_of_line(b, i + 1);
        } else {
            i += 1;
        }
    }
    None
}

/// Reads the rules of a text: any number of rules, separated by blanks and
/// comments, which start with `;` and take the rest of their line.
pub fn load_rules_from_src(src: &str, floats: &mut Floats) -> (r: Outcome<Vec<Rule>, NeutronError>)
    ensures
        (loaded(r), final(floats)@) == rules_from(
            encode_utf8(src@),
            0,
            Seq::empty(),
            old(floats)@,
        ),
{
    let b = src.as_bytes();
    let mut rules: Vec<Rule> = Vec::new();
    let mut i: usize = 0;
    let ghost whole = rules_from(b@, 0, Seq::empty(), floats@);
    assert(rule_models(rules@) == Seq::<RuleModel>::empty());
    proof {
        encode_utf8_valid_utf8(src@);
    }
    while i < b.len()
        invariant
            i <= b@.len(),
            valid_utf8(b@),
            whole == rules_from(encode_utf8(src@), 0, Seq::empty(), old(floats)@),
            whole == rules_from(b@, i as nat, rule_models(rules@), floats@),
        decreases b@.len() - i,
    {
        let c = b[i];
        if c == 59 {
            i = end_of_line(b, i + 1);
            continue;
        }
        if c == 9 || c == 10 || c == 12 || c == 13 || c == 32 {
            i += 1;
            continue;
        }
        if c != 40 {
            let mut s = "规则源第 ".to_owned();
            push_dec(&mut s, i as u64);
            s.append(" 字节处期望 '('，得到 ");
            s.append(quote_char(c as char).as_str());
            return Outcome::Failed(NeutronError::Isel(s));
        }
        match find_closing(b, i) {
            None => {
                return Outcome::Failed(isel_failure("规则源括号不配平"));
            },
            Some(j) => {
                proof {
                    closing_is_closing(b@, i as nat, 0);
                    part_is_text(b@, i as int, j as int);
                }
                let part = vstd::slice::slice_subrange(b, i, j + 1);
                match utf8_str(part) {
                    Err(_) => {
                        return Outcome::Stuck;
                    },
                    Ok(expr) => match parse_rule(expr, floats) {
                        Outcome::Done(rule) => {
                            let ghost before = rule_models(rules@);
                            rules.push(rule);
                            assert(rule_models(rules@) == before.push(rule@));
                            i = j + 1;
                        },
                        Outcome::Failed(e) => {
                            return Outcome::Failed(e);
                        },
                        Outcome::Stuck => {
                            return Outcome::Stuck;
                        },
                        Outcome::Needs(q) => {
                            return Outcome::Needs(q);
                        },
                    },
                }
            },
        }
    }
    Outcome::Done(rules)
}

/// What an outcome with rules says.
pub open spec fn loaded(o: Outcome<Vec<Rule>, NeutronError>) -> OutcomeModel<Seq<RuleModel>, ErrorModel> {
    match o {
        Outcome::Done(v) => OutcomeModel::Done(rule_models(v@)),
        Outcome::Failed(e) => OutcomeModel::Failed(e@),
        Outcome::Stuck => OutcomeModel::Stuck,
        Outcome::Needs(q) => OutcomeModel::Needs(q@),
    }
}

} // verus!
