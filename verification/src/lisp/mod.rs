//! S-expressions: values, their text, and a small evaluator for the rules of
//! instruction selection.
//!
//! Floats are held by their bits. What only floating point hardware computes
//! is asked for: an operation that needs such a result and has no answer for
//! it ends with a request, and is run again with one more answer.

pub mod interp;
pub mod parser;
pub mod show;
pub mod arithmetic;
pub mod laws;
pub mod literals;
pub mod replay;
pub mod reading;

use vstd::prelude::*;
use crate::text::texts;

verus! {

/// An S-expression.
#[derive(Debug)]
pub enum Val {
    Nil,
    Bool(bool),
    Int(i64),
    Float(u64),
    Sym(String),
    Str(String),
    List(Vec<Val>),
    Lambda { params: Vec<String>, body: Vec<Val> },
}

/// What an S-expression says.
pub enum ValModel {
    Nil,
    Bool(bool),
    Int(i64),
    Float(u64),
    Sym(Seq<char>),
    Str(Seq<char>),
    List(Seq<ValModel>),
    Lambda { params: Seq<Seq<char>>, body: Seq<ValModel> },
}

/// What the items of a sequence say.
pub open spec fn models(s: Seq<Val>) -> Seq<ValModel>
    decreases s,
{
    Seq::new(
        s.len(),
        |i: int|
            if 0 <= i < s.len() {
                s[i].view()
            } else {
                ValModel::Nil
            },
    )
}

impl View for Val {
    type V = ValModel;

    open spec fn view(&self) -> ValModel
        decreases self,
    {
        match self {
            Val::Nil => ValModel::Nil,
            Val::Bool(b) => ValModel::Bool(*b),
            Val::Int(i) => ValModel::Int(*i),
            Val::Float(x) => ValModel::Float(*x),
            Val::Sym(s) => ValModel::Sym(s@),
            Val::Str(s) => ValModel::Str(s@),
            Val::List(v) => ValModel::List(models(v@)),
            Val::Lambda { params, body } => ValModel::Lambda {
                params: texts(params@),
                body: models(body@),
            },
        }
    }
}

impl Clone for Val {
    fn clone(&self) -> (r: Self)
        ensures
            r@ == self@,
        decreases self,
    {
        match self {
            Val::Nil => Val::Nil,
            Val::Bool(b) => Val::Bool(*b),
            Val::Int(i) => Val::Int(*i),
            Val::Float(x) => Val::Float(*x),
            Val::Sym(s) => Val::Sym(s.clone()),
            Val::Str(s) => Val::Str(s.clone()),
            Val::List(v) => {
                let mut out: Vec<Val> = Vec::new();
                let mut k: usize = 0;
                while k < v.len()
                    invariant
                        k <= v@.len(),
                        self matches Val::List(w) && *w == *v,
                        out@.len() == k,
                        forall|i: int| 0 <= i < k ==> (#[trigger] out@[i])@ == v@[i]@,
                    decreases v@.len() - k,
                {
                    let item = v[k].clone();
                    out.push(item);
                    k += 1;
                }
                assert(models(out@) == models(v@));
                Val::List(out)
            },
            Val::Lambda { params, body } => {
                let mut names: Vec<String> = Vec::new();
                let mut k: usize = 0;
                while k < params.len()
                    invariant
                        k <= params@.len(),
                        names@.len() == k,
                        forall|i: int| 0 <= i < k ==> (#[trigger] names@[i])@ == params@[i]@,
                    decreases params@.len() - k,
                {
                    names.push(params[k].clone());
                    k += 1;
                }
                let mut out: Vec<Val> = Vec::new();
                let mut k: usize = 0;
                while k < body.len()
                    invariant
                        k <= body@.len(),
                        self matches Val::Lambda { params: p, body: w } && *w == *body,
                        out@.len() == k,
                        forall|i: int| 0 <= i < k ==> (#[trigger] out@[i])@ == body@[i]@,
                    decreases body@.len() - k,
                {
                    let item = body[k].clone();
                    out.push(item);
                    k += 1;
                }
                assert(texts(names@) == texts(params@));
                assert(models(out@) == models(body@));
                Val::Lambda { params: names, body: out }
            },
        }
    }
}

impl Val {
    pub fn as_list(&self) -> (r: Option<&[Val]>)
        ensures
            match r {
                Some(v) => self@ == ValModel::List(models(v@)) && *self is List && self->List_0@ == v@,
                None => !(self@ is List),
            },
    {
        match self {
            Val::List(v) => Some(v.as_slice()),
            _ => None,
        }
    }

    pub fn as_sym(&self) -> (r: Option<&str>)
        ensures
            match r {
                Some(s) => self@ == ValModel::Sym(s@),
                None => !(self@ is Sym),
            },
    {
        match self {
            Val::Sym(s) => Some(s.as_str()),
            _ => None,
        }
    }
}

/// A computation that is left to floating point arithmetic. Floats are given
/// by their bits.
#[derive(Debug)]
pub enum FloatRequest {
    /// The bits of the sum.
    Add(u64, u64),
    /// The bits of the difference.
    Sub(u64, u64),
    /// The bits of the product.
    Mul(u64, u64),
    /// The bits of the quotient.
    Div(u64, u64),
    /// The bits of the number nearest to a decimal literal.
    Parse(String),
    /// The shortest decimal text that reads back as the number.
    Show(u64),
    /// The same, with at least one fractional digit.
    Debug(u64),
    /// The decimal text with the given number of fractional digits.
    Fixed(u64, u32),
}

/// What a request asks for.
pub enum RequestModel {
    Add(u64, u64),
    Sub(u64, u64),
    Mul(u64, u64),
    Div(u64, u64),
    Parse(Seq<char>),
    Show(u64),
    Debug(u64),
    Fixed(u64, u32),
}

impl View for FloatRequest {
    type V = RequestModel;

    open spec fn view(&self) -> RequestModel {
        match self {
            FloatRequest::Add(a, b) => RequestModel::Add(*a, *b),
            FloatRequest::Sub(a, b) => RequestModel::Sub(*a, *b),
            FloatRequest::Mul(a, b) => RequestModel::Mul(*a, *b),
            FloatRequest::Div(a, b) => RequestModel::Div(*a, *b),
            FloatRequest::Parse(s) => RequestModel::Parse(s@),
            FloatRequest::Show(a) => RequestModel::Show(*a),
            FloatRequest::Debug(a) => RequestModel::Debug(*a),
            FloatRequest::Fixed(a, n) => RequestModel::Fixed(*a, *n),
        }
    }
}

/// The answer to a request: bits for arithmetic and literals, text for the rest.
#[derive(Debug)]
pub enum FloatAnswer {
    Bits(u64),
    Text(String),
}

/// What an answer says.
pub enum AnswerModel {
    Bits(u64),
    Text(Seq<char>),
}

impl View for FloatAnswer {
    type V = AnswerModel;

    open spec fn view(&self) -> AnswerModel {
        match self {
            FloatAnswer::Bits(b) => AnswerModel::Bits(*b),
            FloatAnswer::Text(s) => AnswerModel::Text(s@),
        }
    }
}

/// How far an operation got.
#[derive(Debug)]
pub enum Outcome<T, E = String> {
    /// It has a result.
    Done(T),
    /// It failed, for the given reason.
    Failed(E),
    /// It can neither go on nor fail: integer arithmetic left the range of its
    /// type, or a rule that applies emits nothing.
    Stuck,
    /// It needs the answer to a request.
    Needs(FloatRequest),
}

/// What an outcome says.
pub enum OutcomeModel<T, E = Seq<char>> {
    Done(T),
    Failed(E),
    Stuck,
    Needs(RequestModel),
}

impl<T: View, E: View> View for Outcome<T, E> {
    type V = OutcomeModel<T::V, E::V>;

    open spec fn view(&self) -> OutcomeModel<T::V, E::V> {
        match self {
            Outcome::Done(t) => OutcomeModel::Done(t@),
            Outcome::Failed(s) => OutcomeModel::Failed(s@),
            Outcome::Stuck => OutcomeModel::Stuck,
            Outcome::Needs(r) => OutcomeModel::Needs(r@),
        }
    }
}

impl<T, E> OutcomeModel<T, E> {
    /// An outcome without a result, as the outcome of another operation.
    pub open spec fn passed_on<U>(self) -> OutcomeModel<U, E> {
        match self {
            OutcomeModel::Done(_) => OutcomeModel::Stuck,
            OutcomeModel::Failed(s) => OutcomeModel::Failed(s),
            OutcomeModel::Stuck => OutcomeModel::Stuck,
            OutcomeModel::Needs(r) => OutcomeModel::Needs(r),
        }
    }
}

/// An outcome without a result, as the outcome of another operation.
pub(crate) fn pass_on<T: View, U: View, E: View>(o: Outcome<T, E>) -> (r: Outcome<U, E>)
    requires
        !(o is Done),
    ensures
        r@ == o@.passed_on::<U::V>(),
        !(r is Done),
{
    match o {
        Outcome::Done(_) => Outcome::Stuck,
        Outcome::Failed(s) => Outcome::Failed(s),
        Outcome::Stuck => Outcome::Stuck,
        Outcome::Needs(q) => Outcome::Needs(q),
    }
}

/// Answers to float requests, used in the order in which requests come up.
#[derive(Debug)]
pub struct Floats {
    answers: Vec<FloatAnswer>,
    next: usize,
}

/// The answers, and how many of them were used.
#[verifier::ext_equal]
pub struct FloatsModel {
    pub answers: Seq<AnswerModel>,
    pub next: nat,
}

/// What the answers of a sequence say.
pub open spec fn answer_models(s: Seq<FloatAnswer>) -> Seq<AnswerModel> {
    Seq::new(s.len(), |i: int| s[i]@)
}

impl FloatsModel {
    /// No answers.
    pub open spec fn none() -> FloatsModel {
        FloatsModel { answers: Seq::empty(), next: 0 }
    }

    /// After the use of one more answer.
    pub open spec fn advanced(self) -> FloatsModel {
        FloatsModel { next: self.next + 1, ..self }
    }

    /// What a request for bits yields.
    pub open spec fn bits_for(self, q: RequestModel) -> (OutcomeModel<u64>, FloatsModel) {
        if self.next < self.answers.len() && self.answers[self.next as int] is Bits {
            (OutcomeModel::Done(self.answers[self.next as int]->Bits_0), self.advanced())
        } else {
            (OutcomeModel::Needs(q), self)
        }
    }

    /// What a request for text yields.
    pub open spec fn text_for(self, q: RequestModel) -> (OutcomeModel<Seq<char>>, FloatsModel) {
        if self.next < self.answers.len() && self.answers[self.next as int] is Text {
            (OutcomeModel::Done(self.answers[self.next as int]->Text_0), self.advanced())
        } else {
            (OutcomeModel::Needs(q), self)
        }
    }
}

impl View for Floats {
    type V = FloatsModel;

    closed spec fn view(&self) -> FloatsModel {
        FloatsModel { answers: answer_models(self.answers@), next: self.next as nat }
    }
}

impl Floats {
    pub fn new() -> (r: Self)
        ensures
            r@ == FloatsModel::none(),
    {
        let r = Floats { answers: Vec::new(), next: 0 };
        assert(r@ == FloatsModel::none());
        r
    }

    /// Appends an answer.
    pub fn answer(&mut self, a: FloatAnswer)
        ensures
            final(self)@ == (FloatsModel { answers: old(self)@.answers.push(a@), ..old(self)@ }),
    {
        self.answers.push(a);
        assert(self@.answers == old(self)@.answers.push(a@));
    }

    /// Makes every answer unused again.
    pub fn rewind(&mut self)
        ensures
            final(self)@ == (FloatsModel { next: 0, ..old(self)@ }),
    {
        self.next = 0;
    }

    pub(crate) fn bits(&mut self, q: FloatRequest) -> (r: Outcome<u64>)
        ensures
            (r@, final(self)@) == old(self)@.bits_for(q@),
    {
        if self.next < self.answers.len() {
            if let FloatAnswer::Bits(b) = &self.answers[self.next] {
                let b: u64 = *b;
                self.next = self.next + 1;
                return Outcome::Done(b);
            }
        }
        Outcome::Needs(q)
    }

    pub(crate) fn text(&mut self, q: FloatRequest) -> (r: Outcome<String>)
        ensures
            (r@, final(self)@) == old(self)@.text_for(q@),
    {
        if self.next < self.answers.len() {
            if let FloatAnswer::Text(s) = &self.answers[self.next] {
                let s = s.clone();
                self.next = self.next + 1;
                return Outcome::Done(s);
            }
        }
        Outcome::Needs(q)
    }
}

} // verus!
