//! The protobuf wire format: variable length numbers, and messages as
//! sequences of numbered fields.

use vstd::prelude::*;
use vstd::utf8::{decode_utf8, valid_utf8};
use crate::base::{ErrorKind, ErrorModel, NeutronError, Result, numbered};
use crate::bytes::{utf8_complaint, utf8_str};
use crate::text::dec;

verus! {

/// The wire type of variable length numbers.
pub const WT_VARINT: u8 = 0;

/// The wire type of eight byte numbers.
pub const WT_FIXED64: u8 = 1;

/// The wire type of byte sequences with their length.
pub const WT_LEN: u8 = 2;

/// The wire type of four byte numbers.
pub const WT_FIXED32: u8 = 5;

/// An error of a frontend.
pub open spec fn frontend_error(text: Seq<char>) -> ErrorModel {
    (ErrorKind::Frontend, text)
}

pub(crate) fn frontend_failure(text: &str) -> (r: NeutronError)
    ensures
        r@ == frontend_error(text@),
{
    NeutronError::Frontend(text.to_owned())
}

/// What a variable length number turns out to be.
pub enum Varint {
    /// A number.
    Value(nat),
    /// The data ends within it.
    Ended,
    /// It has more than ten bytes.
    TooLong,
}

/// The number at `i`, seven bits a byte, least significant first; all bytes
/// but the last have their top bit set. `k` bytes of it came before. Second,
/// the position behind the bytes that were looked at.
pub open spec fn varint_at(d: Seq<u8>, i: nat, k: nat) -> (Varint, nat)
    decreases d.len() - i,
{
    if i >= d.len() {
        (Varint::Ended, i)
    } else if d[i as int] < 128 {
        (Varint::Value(d[i as int] as nat), i + 1)
    } else if k >= 9 {
        (Varint::TooLong, i + 1)
    } else {
        match varint_at(d, i + 1, k + 1) {
            (Varint::Value(v), j) => (Varint::Value((d[i as int] - 128 + 128 * v) as nat), j),
            (e, j) => (e, j),
        }
    }
}

/// Two to the power 64.
pub open spec fn two64() -> nat {
    0x1_0000_0000_0000_0000
}

/// The number at `i`, as far as it fits 64 bits, or the error.
pub open spec fn number_at(d: Seq<u8>, i: nat) -> std::result::Result<u64, ErrorModel> {
    match varint_at(d, i, 0).0 {
        Varint::Value(v) => Ok((v % two64()) as u64),
        Varint::Ended => Err(frontend_error("varint 意外结束"@)),
        Varint::TooLong => Err(frontend_error("varint 过长"@)),
    }
}

/// The position behind the number at `i`.
pub open spec fn number_end(d: Seq<u8>, i: nat) -> nat {
    varint_at(d, i, 0).1
}

/// A number takes at least one byte and lies within the data.
pub proof fn varint_moves_on(d: Seq<u8>, i: nat, k: nat)
    ensures
        i <= varint_at(d, i, k).1,
        i <= d.len() ==> varint_at(d, i, k).1 <= d.len(),
        varint_at(d, i, k).0 is Value ==> i < varint_at(d, i, k).1 <= d.len(),
    decreases d.len() - i,
{
    if i < d.len() && d[i as int] >= 128 && k < 9 {
        varint_moves_on(d, i + 1, k + 1);
    }
}

/// 128 to the power `k`.
pub open spec fn pow128(k: nat) -> nat
    decreases k,
{
    if k == 0 {
        1
    } else {
        128 * pow128((k - 1) as nat)
    }
}

/// The bytes of a number in the wire format.
pub open spec fn varint_bytes(v: nat) -> Seq<u8>
    decreases v,
{
    if v < 128 {
        seq![v as u8]
    } else {
        seq![(128 + v % 128) as u8] + varint_bytes(v / 128)
    }
}

proof fn varint_reads_back(pre: Seq<u8>, v: nat, post: Seq<u8>, k: nat)
    requires
        v < pow128((10 - k) as nat),
        k <= 9,
    ensures
        varint_at(pre + varint_bytes(v) + post, pre.len(), k) == (
            Varint::Value(v),
            pre.len() + varint_bytes(v).len(),
        ),
    decreases v,
{
    let d = pre + varint_bytes(v) + post;
    let i = pre.len();
    if v < 128 {
        assert(d[i as int] == v as u8);
    } else {
        let b = (128 + v % 128) as u8;
        assert(d[i as int] == b);
        assert(pow128(1) == 128) by {
            reveal_with_fuel(pow128, 2);
        }
        assert(k < 9);
        let rest = v / 128;
        assert(pow128((10 - k) as nat) == 128 * pow128((9 - k) as nat));
        assert(rest < pow128((10 - (k + 1)) as nat));
        varint_reads_back(pre.push(b), rest, post, k + 1);
        assert(pre.push(b) + varint_bytes(rest) + post == d);
        assert(b - 128 + 128 * rest == v);
    }
}

/// A 64 bit number that was written is read back, and reading stops right
/// behind it.
pub proof fn number_round_trip(pre: Seq<u8>, v: u64, post: Seq<u8>)
    ensures
        number_at(pre + varint_bytes(v as nat) + post, pre.len()) == Ok::<u64, ErrorModel>(v),
        number_end(pre + varint_bytes(v as nat) + post, pre.len()) == pre.len() + varint_bytes(
            v as nat,
        ).len(),
{
    assert(pow128(10) == 128 * pow128(9)) by {
        reveal_with_fuel(pow128, 2);
    }
    assert(pow128(9) == 0x8000_0000_0000_0000) by {
        reveal_with_fuel(pow128, 10);
    }
    varint_reads_back(pre, v as nat, post, 0);
}

/// The byte sequence with its length at `i`, or the error.
pub open spec fn chunk_at(d: Seq<u8>, i: nat, complaint: Seq<char>) -> std::result::Result<
    Seq<u8>,
    ErrorModel,
> {
    match number_at(d, i) {
        Ok(n) => if number_end(d, i) + n > d.len() {
            Err(frontend_error(complaint))
        } else {
            Ok(d.subrange(number_end(d, i) as int, number_end(d, i) + n))
        },
        Err(e) => Err(e),
    }
}

/// The position behind the byte sequence at `i`, as far as it was read.
pub open spec fn chunk_end(d: Seq<u8>, i: nat) -> nat {
    match number_at(d, i) {
        Ok(n) => if number_end(d, i) + n > d.len() {
            number_end(d, i)
        } else {
            number_end(d, i) + n as nat
        },
        Err(_) => number_end(d, i),
    }
}

/// The text that a byte sequence encodes, or the error.
pub open spec fn text_field(b: Seq<u8>) -> std::result::Result<Seq<char>, ErrorModel> {
    if valid_utf8(b) {
        Ok(decode_utf8(b))
    } else {
        Err(frontend_error("UTF-8 解码失败: "@ + utf8_complaint(b)))
    }
}

/// What a field holds.
pub enum Payload<'a> {
    Varint(u64),
    /// The bytes of an eight byte number; fewer at the end of the data.
    Fixed64(&'a [u8]),
    Len(&'a [u8]),
    /// The bytes of a four byte number; fewer at the end of the data.
    Fixed32(&'a [u8]),
}

/// A field of a message.
pub struct Field<'a> {
    pub number: u32,
    pub payload: Payload<'a>,
}

/// What a field holds.
pub enum PayloadModel {
    Varint(u64),
    Fixed64(Seq<u8>),
    Len(Seq<u8>),
    Fixed32(Seq<u8>),
}

impl<'a> View for Payload<'a> {
    type V = PayloadModel;

    open spec fn view(&self) -> PayloadModel {
        match self {
            Payload::Varint(v) => PayloadModel::Varint(*v),
            Payload::Fixed64(b) => PayloadModel::Fixed64(b@),
            Payload::Len(b) => PayloadModel::Len(b@),
            Payload::Fixed32(b) => PayloadModel::Fixed32(b@),
        }
    }
}

/// The bytes from `i` on, at most `n`.
pub open spec fn up_to(d: Seq<u8>, i: nat, n: nat) -> Seq<u8> {
    if i + n <= d.len() {
        d.subrange(i as int, (i + n) as int)
    } else if i <= d.len() {
        d.skip(i as int)
    } else {
        Seq::empty()
    }
}

/// The complaint about a byte sequence that is longer than the data: it is
/// worded differently for fields that are only skipped.
pub open spec fn length_complaint(known: bool) -> Seq<char> {
    if known {
        "length-delimited 越界"@
    } else {
        "skip 越界"@
    }
}

/// The field at `i`, and the position behind it; or the error. The message
/// takes byte sequences under the field numbers `known`.
pub open spec fn field_at(d: Seq<u8>, i: nat, known: Seq<u32>) -> std::result::Result<
    (u32, PayloadModel, nat),
    ErrorModel,
> {
    match number_at(d, i) {
        Err(e) => Err(e),
        Ok(tag) => {
            let n = (tag / 8) as u32;
            let j = number_end(d, i);
            let wt = (tag % 8) as u8;
            if wt == WT_VARINT {
                match number_at(d, j) {
                    Ok(v) => Ok((n, PayloadModel::Varint(v), number_end(d, j))),
                    Err(e) => Err(e),
                }
            } else if wt == WT_LEN {
                match chunk_at(d, j, length_complaint(known.contains(n))) {
                    Ok(b) => Ok((n, PayloadModel::Len(b), chunk_end(d, j))),
                    Err(e) => Err(e),
                }
            } else if wt == WT_FIXED64 {
                Ok((n, PayloadModel::Fixed64(up_to(d, j, 8)), j + 8))
            } else if wt == WT_FIXED32 {
                Ok((n, PayloadModel::Fixed32(up_to(d, j, 4)), j + 4))
            } else {
                Err(frontend_error("未知 wire_type: "@ + dec(wt as nat)))
            }
        },
    }
}

/// How much data is left at `i`.
pub open spec fn left(d: Seq<u8>, i: nat) -> nat {
    if i < d.len() {
        (d.len() - i) as nat
    } else {
        0
    }
}

/// What is said about a byte sequence that is too long does not bear on which
/// ones can be read, or on what they hold.
pub proof fn complaint_is_only_wording(d: Seq<u8>, i: nat, a: Seq<char>, b: Seq<char>)
    ensures
        chunk_at(d, i, a) is Ok <==> chunk_at(d, i, b) is Ok,
        chunk_at(d, i, a) is Ok ==> chunk_at(d, i, a) == chunk_at(d, i, b),
{
}

/// A field takes at least one byte.
pub proof fn field_moves_on(d: Seq<u8>, i: nat, known: Seq<u32>)
    ensures
        field_at(d, i, known) is Ok ==> i < field_at(d, i, known)->Ok_0.2,
{
    varint_moves_on(d, i, 0);
    varint_moves_on(d, number_end(d, i), 0);
}

/// A position in a byte sequence.
pub struct Cursor<'a> {
    pub data: &'a [u8],
    pub pos: usize,
}

impl<'a> Cursor<'a> {
    pub fn new(data: &'a [u8]) -> (r: Self)
        ensures
            r.data@ == data@,
            r.pos == 0,
    {
        Cursor { data, pos: 0 }
    }

    pub fn eof(&self) -> (r: bool)
        ensures
            r == (self.pos >= self.data@.len()),
    {
        self.pos >= self.data.len()
    }

    pub fn remaining(&self) -> (r: &'a [u8])
        requires
            self.pos <= self.data@.len(),
        ensures
            r@ == self.data@.skip(self.pos as int),
    {
        let r = vstd::slice::slice_subrange(self.data, self.pos, self.data.len());
        assert(r@ == self.data@.skip(self.pos as int));
        r
    }

    /// Reads a number.
    pub fn read_varint(&mut self) -> (r: Result<u64>)
        ensures
            final(self).data == old(self).data,
            final(self).pos == number_end(old(self).data@, old(self).pos as nat),
            match r {
                Ok(v) => number_at(old(self).data@, old(self).pos as nat) == Ok::<u64, ErrorModel>(v),
                Err(e) => number_at(old(self).data@, old(self).pos as nat) == Err::<u64, ErrorModel>(
                    e@,
                ),
            },
    {
        let ghost d = self.data@;
        let ghost start = self.pos as nat;
        let len: usize = self.data.len();
        let mut result: u64 = 0;
        let mut scale: u64 = 1;
        let mut k: usize = 0;
        loop
            invariant
                k <= 9,
                len == d.len(),
                self.data == old(self).data,
                d == old(self).data@,
                start == old(self).pos,
                k > 0 ==> self.pos <= len,
                self.pos == start + k,
                scale == pow128(k as nat),
                result < pow128(k as nat),
                varint_at(d, start, 0).1 == varint_at(d, self.pos as nat, k as nat).1,
                match varint_at(d, self.pos as nat, k as nat).0 {
                    Varint::Value(v) => varint_at(d, start, 0).0 == Varint::Value(
                        result as nat + scale as nat * v,
                    ),
                    e => varint_at(d, start, 0).0 == e,
                },
            decreases 9 - k,
        {
            if self.pos >= len {
                return Err(frontend_failure("varint 意外结束"));
            }
            let b = self.data[self.pos];
            self.pos = self.pos + 1;
            proof {
                reveal_with_fuel(pow128, 10);
            }
            if b < 128 {
                proof {
                    no_carry(result as nat, scale as nat, b as nat, k as nat);
                }
                if k == 9 {
                    let top: u64 = if b % 2 == 1 { 0x8000_0000_0000_0000 } else { 0 };
                    return Ok(result + top);
                }
                return Ok(result + scale * b as u64);
            }
            if k == 9 {
                return Err(frontend_failure("varint 过长"));
            }
            proof {
                no_carry(result as nat, scale as nat, (b - 128) as nat, k as nat);
                match varint_at(d, self.pos as nat, (k + 1) as nat).0 {
                    Varint::Value(v) => {
                        let s = scale as int;
                        let x = b as int - 128;
                        let w = v as int;
                        assert(s * (x + 128 * w) == s * x + (s * 128) * w) by (nonlinear_arith);
                    },
                    _ => {},
                }
            }
            result = result + scale * (b as u64 - 128);
            scale = scale * 128;
            k += 1;
        }
    }
}

/// Seven more bits at position `k` do not disturb those below; the tenth group
/// contributes its lowest bit.
proof fn no_carry(acc: nat, scale: nat, b: nat, k: nat)
    requires
        k <= 9,
        scale == pow128(k),
        acc < scale,
        b < 128,
    ensures
        k < 9 ==> acc + scale * b < pow128(k + 1) <= 0x8000_0000_0000_0000,
        k == 9 ==> scale == 0x8000_0000_0000_0000 && (acc + scale * b) % two64() == acc
            + 0x8000_0000_0000_0000 * (b % 2),
        k < 9 ==> (acc + scale * b) % two64() == acc + scale * b,
{
    reveal_with_fuel(pow128, 11);
    let s = scale as int;
    let x = b as int;
    assert(s * x <= s * 127) by (nonlinear_arith)
        requires
            x <= 127,
            s >= 0,
    ;
    assert(s * x >= 0) by (nonlinear_arith)
        requires
            x >= 0,
            s >= 0,
    ;
    if k == 9 {
        let low = acc + 0x8000_0000_0000_0000 * (b % 2);
        assert(b == 2 * (b / 2) + b % 2);
        assert(s * x == 0x8000_0000_0000_0000 * x) by (nonlinear_arith)
            requires
                s == 0x8000_0000_0000_0000,
        ;
        assert(acc + scale * b == two64() * (b / 2) + low);
        vstd::arithmetic::div_mod::lemma_mod_multiples_vanish(
            (b / 2) as int,
            low as int,
            two64() as int,
        );
        vstd::arithmetic::div_mod::lemma_small_mod(low as nat, two64());
    } else {
        vstd::arithmetic::div_mod::lemma_small_mod((acc + scale * b) as nat, two64());
    }
}


impl<'a> Cursor<'a> {
    /// Reads a byte sequence with its length; `complaint` says what is wrong
    /// if the data is shorter.
    fn read_chunk(&mut self, complaint: &str) -> (r: Result<&'a [u8]>)
        ensures
            final(self).data == old(self).data,
            final(self).pos == chunk_end(old(self).data@, old(self).pos as nat),
            match r {
                Ok(b) => chunk_at(old(self).data@, old(self).pos as nat, complaint@) == Ok::<
                    Seq<u8>,
                    ErrorModel,
                >(b@),
                Err(e) => chunk_at(old(self).data@, old(self).pos as nat, complaint@) == Err::<
                    Seq<u8>,
                    ErrorModel,
                >(e@),
            },
    {
        proof {
            varint_moves_on(self.data@, self.pos as nat, 0);
        }
        match self.read_varint() {
            Err(e) => Err(e),
            Ok(n) => {
                if n > (self.data.len() - self.pos) as u64 {
                    return Err(frontend_failure(complaint));
                }
                let b = vstd::slice::slice_subrange(self.data, self.pos, self.pos + n as usize);
                self.pos = self.pos + n as usize;
                Ok(b)
            },
        }
    }

    /// Reads a byte sequence with its length.
    pub fn read_length_delimited(&mut self) -> (r: Result<&'a [u8]>)
        ensures
            final(self).data == old(self).data,
            final(self).pos == chunk_end(old(self).data@, old(self).pos as nat),
            match r {
                Ok(b) => chunk_at(
                    old(self).data@,
                    old(self).pos as nat,
                    "length-delimited 越界"@,
                ) == Ok::<Seq<u8>, ErrorModel>(b@),
                Err(e) => chunk_at(
                    old(self).data@,
                    old(self).pos as nat,
                    "length-delimited 越界"@,
                ) == Err::<Seq<u8>, ErrorModel>(e@),
            },
    {
        self.read_chunk("length-delimited 越界")
    }

    /// Reads the number and the wire type of a field.
    pub fn read_tag(&mut self) -> (r: Result<(u32, u8)>)
        ensures
            final(self).data == old(self).data,
            final(self).pos == number_end(old(self).data@, old(self).pos as nat),
            match r {
                Ok((n, wt)) => number_at(old(self).data@, old(self).pos as nat) is Ok && n == (
                number_at(old(self).data@, old(self).pos as nat)->Ok_0 / 8) as u32 && wt == number_at(
                    old(self).data@,
                    old(self).pos as nat,
                )->Ok_0 % 8,
                Err(e) => number_at(old(self).data@, old(self).pos as nat) == Err::<u64, ErrorModel>(
                    e@,
                ),
            },
    {
        match self.read_varint() {
            Err(e) => Err(e),
            Ok(v) => Ok(((v / 8) as u32, (v % 8) as u8)),
        }
    }

    /// Skips the rest of a field of the given wire type. Eight and four byte
    /// numbers may lie partly behind the end.
    pub fn skip_field(&mut self, wire_type: u8) -> (r: Result<()>)
        requires
            wire_type == WT_FIXED64 ==> old(self).pos + 8 <= usize::MAX,
            wire_type == WT_FIXED32 ==> old(self).pos + 4 <= usize::MAX,
        ensures
            final(self).data == old(self).data,
            ({
                let d = old(self).data@;
                let i = old(self).pos as nat;
                if wire_type == WT_VARINT {
                    &&& final(self).pos == number_end(d, i)
                    &&& match r {
                        Ok(_) => number_at(d, i) is Ok,
                        Err(e) => number_at(d, i) == Err::<u64, ErrorModel>(e@),
                    }
                } else if wire_type == WT_LEN {
                    &&& final(self).pos == chunk_end(d, i)
                    &&& match r {
                        Ok(_) => chunk_at(d, i, "skip 越界"@) is Ok,
                        Err(e) => chunk_at(d, i, "skip 越界"@) == Err::<Seq<u8>, ErrorModel>(e@),
                    }
                } else if wire_type == WT_FIXED64 {
                    r is Ok && final(self).pos == i + 8
                } else if wire_type == WT_FIXED32 {
                    r is Ok && final(self).pos == i + 4
                } else {
                    &&& final(self).pos == i
                    &&& r is Err
                    &&& r->Err_0@ == frontend_error("未知 wire_type: "@ + dec(wire_type as nat))
                }
            }),
    {
        if wire_type == WT_VARINT {
            match self.read_varint() {
                Ok(_) => Ok(()),
                Err(e) => Err(e),
            }
        } else if wire_type == WT_LEN {
            match self.read_chunk("skip 越界") {
                Ok(_) => Ok(()),
                Err(e) => Err(e),
            }
        } else if wire_type == WT_FIXED64 {
            self.pos = self.pos + 8;
            Ok(())
        } else if wire_type == WT_FIXED32 {
            self.pos = self.pos + 4;
            Ok(())
        } else {
            Err(NeutronError::Frontend(numbered("未知 wire_type: ", wire_type as u64)))
        }
    }

    /// The bytes from here on, at most `n`.
    fn peek(&self, n: usize) -> (r: &'a [u8])
        ensures
            r@ == up_to(self.data@, self.pos as nat, n as nat),
    {
        let len: usize = self.data.len();
        let from: usize = if self.pos <= len { self.pos } else { len };
        let to: usize = if n <= len - from { from + n } else { len };
        let r = vstd::slice::slice_subrange(self.data, from, to);
        assert(r@ == up_to(self.data@, self.pos as nat, n as nat));
        r
    }

    /// Reads the next field of a message that takes byte sequences under the
    /// field numbers `known`.
    pub fn next_field(&mut self, known: &[u32]) -> (r: Result<Field<'a>>)
        requires
            old(self).data@.len() + 8 <= usize::MAX,
        ensures
            final(self).data == old(self).data,
            match r {
                Ok(f) => field_at(
                    old(self).data@,
                    old(self).pos as nat,
                    known@,
                ) == Ok::<(u32, PayloadModel, nat), ErrorModel>(
                    (f.number, f.payload@, final(self).pos as nat),
                ),
                Err(e) => field_at(
                    old(self).data@,
                    old(self).pos as nat,
                    known@,
                ) == Err::<(u32, PayloadModel, nat), ErrorModel>(e@),
            },
    {
        proof {
            varint_moves_on(self.data@, self.pos as nat, 0);
        }
        match self.read_tag() {
            Err(e) => Err(e),
            Ok((number, wt)) => {
                if wt == WT_VARINT {
                    match self.read_varint() {
                        Ok(v) => Ok(Field { number, payload: Payload::Varint(v) }),
                        Err(e) => Err(e),
                    }
                } else if wt == WT_LEN {
                    let complaint = if listed(known, number) {
                        "length-delimited 越界"
                    } else {
                        "skip 越界"
                    };
                    match self.read_chunk(complaint) {
                        Ok(b) => Ok(Field { number, payload: Payload::Len(b) }),
                        Err(e) => Err(e),
                    }
                } else if wt == WT_FIXED64 {
                    let b = self.peek(8);
                    self.pos = self.pos + 8;
                    Ok(Field { number, payload: Payload::Fixed64(b) })
                } else if wt == WT_FIXED32 {
                    let b = self.peek(4);
                    self.pos = self.pos + 4;
                    Ok(Field { number, payload: Payload::Fixed32(b) })
                } else {
                    Err(NeutronError::Frontend(numbered("未知 wire_type: ", wt as u64)))
                }
            },
        }
    }
}

fn listed(s: &[u32], n: u32) -> (r: bool)
    ensures
        r == s@.contains(n),
{
    let mut i: usize = 0;
    while i < s.len()
        invariant
            i <= s@.len(),
            forall|j: int| 0 <= j < i ==> s@[j] != n,
        decreases s@.len() - i,
    {
        if s[i] == n {
            return true;
        }
        i += 1;
    }
    false
}

/// The text that a byte sequence encodes.
pub fn read_string_field(buf: &[u8]) -> (r: Result<String>)
    ensures
        match r {
            Ok(s) => text_field(buf@) == Ok::<Seq<char>, ErrorModel>(s@),
            Err(e) => text_field(buf@) == Err::<Seq<char>, ErrorModel>(e@),
        },
{
    match utf8_str(buf) {
        Ok(s) => Ok(s.to_owned()),
        Err(e) => {
            let mut s = "UTF-8 解码失败: ".to_owned();
            s.append(e.as_str());
            Err(NeutronError::Frontend(s))
        },
    }
}

/// A cursor at the start of the message that a byte sequence holds.
pub fn sub_cursor(buf: &[u8]) -> (r: Cursor<'_>)
    ensures
        r.data@ == buf@,
        r.pos == 0,
{
    Cursor::new(buf)
}

} // verus!
