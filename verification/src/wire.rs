//! Byte-level building blocks of the XIM wire format: a reading cursor over
//! a borrowed buffer, the `Writable` trait, and the little-endian integer
//! and padding grammar that every message is built from.
use vstd::prelude::*;
use vstd::utf8::valid_utf8;

verus! {

/// Why a message could not be read.
#[derive(Debug, Clone, Copy, PartialEq, Eq)]
pub enum ReadError {
    /// The input ended before the message did.
    EndOfStream,
    /// A field holds a value that the protocol does not define.
    InvalidData,
    /// A string field is not valid UTF-8.
    Utf8,
}

/// Outcome of reading a value of view type `V` at some position: the value
/// and the position right after it, or the error.
pub type Parsed<V> = Result<(V, int), ReadError>;

// ---------------------------------------------------------------------
// Integers (little endian, the byte order of the supported targets)
// ---------------------------------------------------------------------

pub open spec fn le16(b0: u8, b1: u8) -> u16 {
    (b0 + 256 * b1) as u16
}

pub open spec fn le32(b0: u8, b1: u8, b2: u8, b3: u8) -> u32 {
    (b0 + 256 * b1 + 65536 * b2 + 16777216 * b3) as u32
}

pub open spec fn u16_bytes(x: u16) -> Seq<u8> {
    seq![(x % 256) as u8, (x / 256) as u8]
}

pub open spec fn u32_bytes(x: u32) -> Seq<u8> {
    seq![
        (x % 256) as u8,
        ((x / 256) % 256) as u8,
        ((x / 65536) % 256) as u8,
        (x / 16777216) as u8,
    ]
}

/// Two's complement reinterpretation of a 32-bit pattern.
pub open spec fn i32_of_bits(u: u32) -> i32 {
    if u <= 0x7fff_ffff {
        u as i32
    } else {
        (u - 0x1_0000_0000) as i32
    }
}

pub open spec fn bits_of_i32(x: i32) -> u32 {
    if x >= 0 {
        x as u32
    } else {
        (x + 0x1_0000_0000) as u32
    }
}

pub open spec fn parse_u8(b: Seq<u8>, p: int) -> Parsed<u8> {
    if 0 <= p && p + 1 <= b.len() {
        Ok((b[p], p + 1))
    } else {
        Err(ReadError::EndOfStream)
    }
}

pub open spec fn parse_u16(b: Seq<u8>, p: int) -> Parsed<u16> {
    if 0 <= p && p + 2 <= b.len() {
        Ok((le16(b[p], b[p + 1]), p + 2))
    } else {
        Err(ReadError::EndOfStream)
    }
}

pub open spec fn parse_u32(b: Seq<u8>, p: int) -> Parsed<u32> {
    if 0 <= p && p + 4 <= b.len() {
        Ok((le32(b[p], b[p + 1], b[p + 2], b[p + 3]), p + 4))
    } else {
        Err(ReadError::EndOfStream)
    }
}

pub open spec fn parse_i32(b: Seq<u8>, p: int) -> Parsed<i32> {
    match parse_u32(b, p) {
        Ok((u, q)) => Ok((i32_of_bits(u), q)),
        Err(e) => Err(e),
    }
}

/// `n` raw bytes.
pub open spec fn parse_bytes(b: Seq<u8>, p: int, n: int) -> Parsed<Seq<u8>> {
    if 0 <= p && 0 <= n && p + n <= b.len() {
        Ok((b.subrange(p, p + n), p + n))
    } else {
        Err(ReadError::EndOfStream)
    }
}

/// Number of zero bytes that bring `len` to a multiple of four.
pub open spec fn pad_len(len: int) -> int {
    (4 - len % 4) % 4
}

/// Position after skipping padding: up to the next multiple of four,
/// but never past the end of the input.
pub open spec fn skip_pad(b: Seq<u8>, p: int) -> int {
    if p + pad_len(p) <= b.len() {
        p + pad_len(p)
    } else {
        b.len() as int
    }
}

/// `n` zero bytes.
pub open spec fn zeros(n: int) -> Seq<u8> {
    Seq::new(n as nat, |i: int| 0u8)
}

/// The buffer `before` followed by the padding that aligns it to four bytes.
pub open spec fn put_pad(before: Seq<u8>) -> Seq<u8> {
    before + zeros(pad_len(before.len() as int))
}

/// A string field of the `string` form: a 16-bit length, the bytes,
/// which must be UTF-8.
pub open spec fn parse_utf8_string(b: Seq<u8>, p: int) -> Parsed<Seq<u8>> {
    match parse_u16(b, p) {
        Ok((n, q)) => match parse_bytes(b, q, n as int) {
            Ok((s, r)) => if valid_utf8(s) {
                Ok((s, r))
            } else {
                Err(ReadError::Utf8)
            },
            Err(e) => Err(e),
        },
        Err(e) => Err(e),
    }
}

/// `n` 32-bit values.
pub open spec fn parse_u32s(b: Seq<u8>, p: int, n: nat) -> Parsed<Seq<u32>>
    decreases n,
{
    if n == 0 {
        Ok((Seq::empty(), p))
    } else {
        match parse_u32s(b, p, (n - 1) as nat) {
            Ok((vs, q)) => match parse_u32(b, q) {
                Ok((v, r)) => Ok((vs.push(v), r)),
                Err(e) => Err(e),
            },
            Err(e) => Err(e),
        }
    }
}

/// A feedback list: a 16-bit count, 16 unused bits, then that many 32-bit
/// values.
pub open spec fn parse_feedback(b: Seq<u8>, p: int) -> Parsed<Seq<u32>> {
    match parse_u16(b, p) {
        Ok((m, q)) => match parse_u16(b, q) {
            Ok((_unused, r)) => parse_u32s(b, r, m as nat),
            Err(e) => Err(e),
        },
        Err(e) => Err(e),
    }
}

pub proof fn lemma_u16_roundtrip(x: u16)
    ensures
        le16(u16_bytes(x)[0], u16_bytes(x)[1]) == x,
        u16_bytes(x).len() == 2,
{
}

pub proof fn lemma_u32_roundtrip(x: u32)
    ensures
        le32(u32_bytes(x)[0], u32_bytes(x)[1], u32_bytes(x)[2], u32_bytes(x)[3]) == x,
        u32_bytes(x).len() == 4,
{
    let a = x % 256;
    let b = (x / 256) % 256;
    let c = (x / 65536) % 256;
    let d = x / 16777216;
    assert(a + 256 * b + 65536 * c + 16777216 * d == x) by (nonlinear_arith)
        requires
            a == x % 256,
            b == (x / 256) % 256,
            c == (x / 65536) % 256,
            d == x / 16777216,
            0 <= x < 0x1_0000_0000,
    {
        assert(x / 65536 == (x / 256) / 256);
        assert(x / 16777216 == (x / 65536) / 256);
    }
}

pub proof fn lemma_i32_roundtrip(x: i32)
    ensures
        i32_of_bits(bits_of_i32(x)) == x,
{
}

/// Bytes that the trusted UTF-8 check accepts are exactly the valid UTF-8
/// sequences; this is the fact `Reader::string` rests on.
#[verifier::external_body]
fn str_from_utf8<'a>(bytes: &'a [u8]) -> (res: Option<&'a str>)
    ensures
        res is Some <==> valid_utf8(bytes@),
        res matches Some(s) ==> s@ == vstd::utf8::decode_utf8(bytes@),
{
    std::str::from_utf8(bytes).ok()
}

// ---------------------------------------------------------------------
// Reader
// ---------------------------------------------------------------------

/// A cursor over a borrowed message buffer. Values are read front to
/// back; padding is measured from the start of the buffer.
pub struct Reader<'a> {
    b: &'a [u8],
    pos: usize,
}

impl<'a> Reader<'a> {
    /// The whole buffer the reader was made over.
    pub closed spec fn bytes(&self) -> Seq<u8> {
        self.b@
    }

    /// Offset of the next unread byte from the start of the buffer.
    pub closed spec fn pos(&self) -> int {
        self.pos as int
    }

    pub closed spec fn wf(&self) -> bool {
        self.pos <= self.b@.len()
    }

    /// A reader at the start of `b`.
    pub fn new(b: &'a [u8]) -> (r: Self)
        ensures
            r.wf(),
            r.bytes() == b@,
            r.pos() == 0,
    {
        Reader { b, pos: 0 }
    }

    /// Number of bytes not yet read.
    pub fn bytes_len(&self) -> (n: usize)
        requires
            self.wf(),
        ensures
            n == self.bytes().len() - self.pos(),
    {
        self.b.len() - self.pos
    }

    /// Offset of the cursor from the start of the buffer.
    pub fn ptr_offset(&self) -> (n: usize)
        ensures
            n == self.pos(),
    {
        self.pos
    }

    /// The next `n` bytes, borrowed from the buffer.
    pub fn consume(&mut self, n: usize) -> (res: Result<&'a [u8], ReadError>)
        requires
            old(self).wf(),
        ensures
            final(self).wf(),
            final(self).bytes() == old(self).bytes(),
            match parse_bytes(old(self).bytes(), old(self).pos(), n as int) {
                Ok((s, q)) => res matches Ok(x) && x@ == s && final(self).pos() == q,
                Err(e) => res == Err::<&'a [u8], ReadError>(e) && final(self).pos() == old(self).pos(),
            },
    {
        if n <= self.b.len() - self.pos {
            let start = self.pos;
            let end = self.pos + n;
            let s = vstd::slice::slice_subrange(self.b, start, end);
            self.pos = end;
            Ok(s)
        } else {
            Err(ReadError::EndOfStream)
        }
    }

    /// One byte (a `CARD8`).
    pub fn u8(&mut self) -> (res: Result<u8, ReadError>)
        requires
            old(self).wf(),
        ensures
            final(self).wf(),
            final(self).bytes() == old(self).bytes(),
            match parse_u8(old(self).bytes(), old(self).pos()) {
                Ok((v, q)) => res == Ok::<u8, ReadError>(v) && final(self).pos() == q,
                Err(e) => res == Err::<u8, ReadError>(e) && final(self).pos() == old(self).pos(),
            },
    {
        if self.pos < self.b.len() {
            let v = self.b[self.pos];
            self.pos = self.pos + 1;
            Ok(v)
        } else {
            Err(ReadError::EndOfStream)
        }
    }

    /// A 16-bit value (a `CARD16`).
    pub fn u16(&mut self) -> (res: Result<u16, ReadError>)
        requires
            old(self).wf(),
        ensures
            final(self).wf(),
            final(self).bytes() == old(self).bytes(),
            match parse_u16(old(self).bytes(), old(self).pos()) {
                Ok((v, q)) => res == Ok::<u16, ReadError>(v) && final(self).pos() == q,
                Err(e) => res == Err::<u16, ReadError>(e) && final(self).pos() == old(self).pos(),
            },
    {
        if self.b.len() - self.pos >= 2 {
            let b0 = self.b[self.pos];
            let b1 = self.b[self.pos + 1];
            self.pos = self.pos + 2;
            Ok(b0 as u16 + (b1 as u16) * 256)
        } else {
            Err(ReadError::EndOfStream)
        }
    }

    /// A 32-bit value (a `CARD32`).
    pub fn u32(&mut self) -> (res: Result<u32, ReadError>)
        requires
            old(self).wf(),
        ensures
            final(self).wf(),
            final(self).bytes() == old(self).bytes(),
            match parse_u32(old(self).bytes(), old(self).pos()) {
                Ok((v, q)) => res == Ok::<u32, ReadError>(v) && final(self).pos() == q,
                Err(e) => res == Err::<u32, ReadError>(e) && final(self).pos() == old(self).pos(),
            },
    {
        if self.b.len() - self.pos >= 4 {
            let p = self.pos;
            let b0 = self.b[p] as u32;
            let b1 = self.b[p + 1] as u32;
            let b2 = self.b[p + 2] as u32;
            let b3 = self.b[p + 3] as u32;
            self.pos = p + 4;
            Ok(b0 + b1 * 256 + b2 * 65536 + b3 * 16777216)
        } else {
            Err(ReadError::EndOfStream)
        }
    }

    /// A signed 32-bit value (an `INT32`).
    pub fn i32(&mut self) -> (res: Result<i32, ReadError>)
        requires
            old(self).wf(),
        ensures
            final(self).wf(),
            final(self).bytes() == old(self).bytes(),
            match parse_i32(old(self).bytes(), old(self).pos()) {
                Ok((v, q)) => res == Ok::<i32, ReadError>(v) && final(self).pos() == q,
                Err(e) => res == Err::<i32, ReadError>(e) && final(self).pos() == old(self).pos(),
            },
    {
        let u = self.u32()?;
        if u <= 0x7fff_ffff {
            Ok(u as i32)
        } else {
            Ok(((u - 0x8000_0000) as i32) - 0x4000_0000 - 0x4000_0000)
        }
    }

    /// Skips to the next multiple of four bytes from the start of the
    /// buffer, stopping at the end of the input.
    pub fn pad(&mut self)
        requires
            old(self).wf(),
        ensures
            final(self).wf(),
            final(self).bytes() == old(self).bytes(),
            final(self).pos() == skip_pad(old(self).bytes(), old(self).pos()),
    {
        let p = (4 - self.pos % 4) % 4;
        if p <= self.b.len() - self.pos {
            self.pos = self.pos + p;
        } else {
            self.pos = self.b.len();
        }
    }

    /// A length-prefixed UTF-8 string.
    pub fn string(&mut self) -> (res: Result<&'a str, ReadError>)
        requires
            old(self).wf(),
        ensures
            final(self).wf(),
            final(self).bytes() == old(self).bytes(),
            match parse_utf8_string(old(self).bytes(), old(self).pos()) {
                Ok((s, q)) => res matches Ok(x) && x@ == vstd::utf8::decode_utf8(s)
                    && final(self).pos() == q,
                Err(e) => res == Err::<&'a str, ReadError>(e),
            },
    {
        let len = self.u16()?;
        let bytes = self.consume(len as usize)?;
        match str_from_utf8(bytes) {
            Some(s) => Ok(s),
            None => Err(ReadError::Utf8),
        }
    }

    /// A feedback list: a 16-bit count, 16 unused bits, then the values.
    pub fn feedback(&mut self) -> (res: Result<Vec<u32>, ReadError>)
        requires
            old(self).wf(),
        ensures
            final(self).wf(),
            final(self).bytes() == old(self).bytes(),
            match parse_feedback(old(self).bytes(), old(self).pos()) {
                Ok((vs, q)) => res matches Ok(x) && x@ == vs && final(self).pos() == q,
                Err(e) => res == Err::<Vec<u32>, ReadError>(e),
            },
    {
        let m = self.u16()?;
        let _unused = self.u16()?;
        let ghost start = self.pos();
        let mut ret: Vec<u32> = Vec::new();
        let mut i: u16 = 0;
        while i < m
            invariant
                self.wf(),
                self.bytes() == old(self).bytes(),
                i <= m,
                parse_feedback(old(self).bytes(), old(self).pos()) == parse_u32s(
                    old(self).bytes(),
                    start,
                    m as nat,
                ),
                parse_u32s(self.bytes(), start, i as nat) == Ok::<(Seq<u32>, int), ReadError>(
                    (ret@, self.pos()),
                ),
            decreases m - i,
        {
            let v = self.u32();
            match v {
                Ok(v) => {
                    ret.push(v);
                    i = i + 1;
                },
                Err(e) => {
                    proof {
                        assert(parse_u32s(self.bytes(), start, (i + 1) as nat) == Err::<
                            (Seq<u32>, int),
                            ReadError,
                        >(e));
                        lemma_u32s_err_persists(self.bytes(), start, (i + 1) as nat, m as nat);
                    }
                    return Err(e);
                },
            }
        }
        Ok(ret)
    }
}

/// Once reading a prefix of a value list fails, reading a longer list
/// fails with the same error.
pub proof fn lemma_u32s_err_persists(b: Seq<u8>, p: int, n: nat, m: nat)
    requires
        n <= m,
        parse_u32s(b, p, n) is Err,
    ensures
        parse_u32s(b, p, m) == parse_u32s(b, p, n),
    decreases m,
{
    if m > n {
        lemma_u32s_err_persists(b, p, n, (m - 1) as nat);
    }
}

// ---------------------------------------------------------------------
// Writing
// ---------------------------------------------------------------------

/// A value that knows its own wire encoding.
pub trait Writable {
    /// The buffer after this value is appended to `before`. Padding inside
    /// the value is aligned to the start of the buffer.
    spec fn encoded(&self, before: Seq<u8>) -> Seq<u8>;

    fn write(&self, out: &mut Vec<u8>)
        ensures
            final(out)@ == self.encoded(old(out)@),
    ;

    /// Number of bytes the value takes when written at an aligned position.
    fn size(&self) -> (n: usize)
        ensures
            n == self.encoded(Seq::empty()).len(),
    ;
}

/// Appends zero bytes up to the next multiple of four.
pub fn write_pad(out: &mut Vec<u8>)
    ensures
        final(out)@ == put_pad(old(out)@),
{
    let p = (4 - out.len() % 4) % 4;
    let mut i: usize = 0;
    while i < p
        invariant
            i <= p,
            p == pad_len(old(out)@.len() as int),
            out@ == old(out)@ + zeros(i as int),
        decreases p - i,
    {
        out.push(0u8);
        i = i + 1;
        assert(out@ =~= old(out)@ + zeros(i as int));
    }
}

/// Appends raw bytes.
pub fn write_bytes(out: &mut Vec<u8>, bytes: &[u8])
    ensures
        final(out)@ == old(out)@ + bytes@,
{
    let mut i: usize = 0;
    while i < bytes.len()
        invariant
            i <= bytes@.len(),
            out@ == old(out)@ + bytes@.subrange(0, i as int),
        decreases bytes@.len() - i,
    {
        out.push(bytes[i]);
        i = i + 1;
        assert(out@ == old(out)@ + bytes@.subrange(0, i as int));
    }
    assert(bytes@.subrange(0, bytes@.len() as int) == bytes@);
}

impl Writable for u8 {
    open spec fn encoded(&self, before: Seq<u8>) -> Seq<u8> {
        before.push(*self)
    }

    fn write(&self, out: &mut Vec<u8>) {
        out.push(*self);
    }

    fn size(&self) -> (n: usize) {
        1
    }
}

impl Writable for u16 {
    open spec fn encoded(&self, before: Seq<u8>) -> Seq<u8> {
        before + u16_bytes(*self)
    }

    fn write(&self, out: &mut Vec<u8>) {
        out.push((*self % 256) as u8);
        out.push((*self / 256) as u8);
        assert(out@ == old(out)@ + u16_bytes(*self));
    }

    fn size(&self) -> (n: usize) {
        2
    }
}

impl Writable for u32 {
    open spec fn encoded(&self, before: Seq<u8>) -> Seq<u8> {
        before + u32_bytes(*self)
    }

    fn write(&self, out: &mut Vec<u8>) {
        let x = *self;
        out.push((x % 256) as u8);
        out.push(((x / 256) % 256) as u8);
        out.push(((x / 65536) % 256) as u8);
        out.push((x / 16777216) as u8);
        assert(out@ == old(out)@ + u32_bytes(*self));
    }

    fn size(&self) -> (n: usize) {
        4
    }
}

impl Writable for i32 {
    open spec fn encoded(&self, before: Seq<u8>) -> Seq<u8> {
        before + u32_bytes(bits_of_i32(*self))
    }

    fn write(&self, out: &mut Vec<u8>) {
        let x = *self;
        let u: u32 = if x >= 0 {
            x as u32
        } else {
            ((x + 0x4000_0000 + 0x4000_0000) as u32) + 0x8000_0000
        };
        assert(u == bits_of_i32(x));
        u.write(out);
    }

    fn size(&self) -> (n: usize) {
        4
    }
}

} // verus!
