//! The grammar of the XIM messages: what reading a message at a position
//! yields, and which bytes writing a message at an offset appends.
use crate::wire::{
    pad_len, parse_bytes, parse_i32, parse_u16, parse_u32, parse_u8, skip_pad, u16_bytes,
    u32_bytes, bits_of_i32, zeros, Parsed, ReadError,
};
use crate::xim_types::{
    AttrView, CaretDirection, CaretStyle, ConnectReplyView, ConnectView, ExtensionView, OpenReplyView,
    OpenView, PreeditCaret, PreeditCaretReply, PreeditDone, QueryExtensionReplyView,
    QueryExtensionView,
};
use vstd::prelude::*;

verus! {

/// `core`, written at offset `off`, followed by the padding that aligns
/// its end to four bytes.
pub open spec fn padded(off: int, core: Seq<u8>) -> Seq<u8> {
    core + zeros(pad_len(off + core.len()))
}

// ---------------------------------------------------------------------
// Strings
// ---------------------------------------------------------------------

pub open spec fn parse_xim_string(b: Seq<u8>, p: int) -> Parsed<Seq<u8>> {
    match parse_u16(b, p) {
        Ok((n, q)) => parse_bytes(b, q, n as int),
        Err(e) => Err(e),
    }
}

pub open spec fn parse_xim_str(b: Seq<u8>, p: int) -> Parsed<Seq<u8>> {
    match parse_u8(b, p) {
        Ok((n, q)) => parse_bytes(b, q, n as int),
        Err(e) => Err(e),
    }
}

/// A `STRING` on the wire; the length field holds the length modulo 2^16.
pub open spec fn xim_string_bytes(s: Seq<u8>) -> Seq<u8> {
    u16_bytes(s.len() as u16) + s
}

/// A `STR` on the wire; the length field holds the length modulo 2^8.
pub open spec fn xim_str_bytes(s: Seq<u8>) -> Seq<u8> {
    seq![s.len() as u8] + s
}

pub proof fn lemma_xim_str_progress(b: Seq<u8>, p: int)
    ensures
        parse_xim_str(b, p) matches Ok((_, q)) ==> p < q <= b.len(),
{
}

pub proof fn lemma_attr_progress(b: Seq<u8>, p: int)
    ensures
        parse_attr(b, p) matches Ok((_, q)) ==> p < q <= b.len(),
{
}

pub proof fn lemma_extension_progress(b: Seq<u8>, p: int)
    ensures
        parse_extension(b, p) matches Ok((_, q)) ==> p < q <= b.len(),
{
}

// ---------------------------------------------------------------------
// Lists
// ---------------------------------------------------------------------

/// Elements written one after the other from offset `off`; `f(o, x)` is
/// the encoding of `x` at offset `o`.
pub open spec fn seq_bytes<A>(off: int, s: Seq<A>, f: spec_fn(int, A) -> Seq<u8>) -> Seq<u8>
    decreases s.len(),
{
    if s.len() == 0 {
        Seq::empty()
    } else {
        let head = f(off, s[0]);
        head + seq_bytes(off + head.len(), s.drop_first(), f)
    }
}

/// Appending one more element to a list appends its encoding at the end.
pub proof fn lemma_seq_bytes_push<A>(off: int, s: Seq<A>, x: A, f: spec_fn(int, A) -> Seq<u8>)
    ensures
        seq_bytes(off, s.push(x), f) == seq_bytes(off, s, f) + f(
            off + seq_bytes(off, s, f).len(),
            x,
        ),
    decreases s.len(),
{
    if s.len() == 0 {
        assert(s.push(x).drop_first() =~= Seq::<A>::empty());
        assert(seq_bytes(off + f(off, x).len(), Seq::<A>::empty(), f) =~= Seq::<u8>::empty());
        assert(seq_bytes(off, s.push(x), f) =~= f(off, x));
    } else {
        let head = f(off, s[0]);
        lemma_seq_bytes_push(off + head.len(), s.drop_first(), x, f);
        assert(s.push(x).drop_first() =~= s.drop_first().push(x));
        assert(s.push(x)[0] == s[0]);
        assert(seq_bytes(off, s.push(x), f) =~= seq_bytes(off, s, f) + f(
            off + seq_bytes(off, s, f).len(),
            x,
        ));
    }
}

/// `n` strings one after the other.
pub open spec fn parse_xim_strings_n(b: Seq<u8>, p: int, n: nat) -> Parsed<Seq<Seq<u8>>>
    decreases n,
{
    if n == 0 {
        Ok((Seq::empty(), p))
    } else {
        match parse_xim_string(b, p) {
            Ok((s, q)) => match parse_xim_strings_n(b, q, (n - 1) as nat) {
                Ok((rest, r)) => Ok((seq![s] + rest, r)),
                Err(e) => Err(e),
            },
            Err(e) => Err(e),
        }
    }
}

/// `STR` entries until the position reaches `end`.
pub open spec fn parse_xim_strs_until(b: Seq<u8>, p: int, end: int) -> Parsed<Seq<Seq<u8>>>
    decreases b.len() - p,
{
    if p >= end {
        Ok((Seq::empty(), p))
    } else {
        proof {
            lemma_xim_str_progress(b, p);
        }
        match parse_xim_str(b, p) {
            Ok((s, q)) => match parse_xim_strs_until(b, q, end) {
                Ok((rest, r)) => Ok((seq![s] + rest, r)),
                Err(e) => Err(e),
            },
            Err(e) => Err(e),
        }
    }
}

// ---------------------------------------------------------------------
// Attributes and extensions
// ---------------------------------------------------------------------

pub open spec fn parse_attr(b: Seq<u8>, p: int) -> Parsed<AttrView> {
    match parse_u16(b, p) {
        Ok((id, p1)) => match parse_u16(b, p1) {
            Ok((type_, p2)) => match parse_xim_string(b, p2) {
                Ok((name, p3)) => Ok((AttrView { id, type_, name }, skip_pad(b, p3))),
                Err(e) => Err(e),
            },
            Err(e) => Err(e),
        },
        Err(e) => Err(e),
    }
}

pub open spec fn attr_bytes(off: int, a: AttrView) -> Seq<u8> {
    padded(off, u16_bytes(a.id) + u16_bytes(a.type_) + xim_string_bytes(a.name))
}

pub open spec fn attr_bytes_fn() -> spec_fn(int, AttrView) -> Seq<u8> {
    |o: int, a: AttrView| attr_bytes(o, a)
}

pub open spec fn attrs_bytes(off: int, s: Seq<AttrView>) -> Seq<u8> {
    seq_bytes(off, s, attr_bytes_fn())
}

/// Attributes until the position reaches `end`.
pub open spec fn parse_attrs_until(b: Seq<u8>, p: int, end: int) -> Parsed<Seq<AttrView>>
    decreases b.len() - p,
{
    if p >= end {
        Ok((Seq::empty(), p))
    } else {
        proof {
            lemma_attr_progress(b, p);
        }
        match parse_attr(b, p) {
            Ok((a, q)) => match parse_attrs_until(b, q, end) {
                Ok((rest, r)) => Ok((seq![a] + rest, r)),
                Err(e) => Err(e),
            },
            Err(e) => Err(e),
        }
    }
}

pub open spec fn parse_extension(b: Seq<u8>, p: int) -> Parsed<ExtensionView> {
    match parse_u8(b, p) {
        Ok((major_opcode, p1)) => match parse_u8(b, p1) {
            Ok((minor_opcode, p2)) => match parse_xim_string(b, p2) {
                Ok((name, p3)) => Ok(
                    (ExtensionView { major_opcode, minor_opcode, name }, skip_pad(b, p3)),
                ),
                Err(e) => Err(e),
            },
            Err(e) => Err(e),
        },
        Err(e) => Err(e),
    }
}

pub open spec fn extension_bytes(off: int, e: ExtensionView) -> Seq<u8> {
    padded(off, seq![e.major_opcode, e.minor_opcode] + xim_string_bytes(e.name))
}

pub open spec fn extension_bytes_fn() -> spec_fn(int, ExtensionView) -> Seq<u8> {
    |o: int, e: ExtensionView| extension_bytes(o, e)
}

pub open spec fn extensions_bytes(off: int, s: Seq<ExtensionView>) -> Seq<u8> {
    seq_bytes(off, s, extension_bytes_fn())
}

/// Extensions until the position reaches `end`.
pub open spec fn parse_extensions_until(b: Seq<u8>, p: int, end: int) -> Parsed<
    Seq<ExtensionView>,
>
    decreases b.len() - p,
{
    if p >= end {
        Ok((Seq::empty(), p))
    } else {
        proof {
            lemma_extension_progress(b, p);
        }
        match parse_extension(b, p) {
            Ok((x, q)) => match parse_extensions_until(b, q, end) {
                Ok((rest, r)) => Ok((seq![x] + rest, r)),
                Err(e) => Err(e),
            },
            Err(e) => Err(e),
        }
    }
}

/// A 16-bit byte count at `p`, then the position right after it and the
/// position that the count reaches; reading past the end of the input is
/// an error.
pub open spec fn parse_len_field(b: Seq<u8>, p: int) -> Parsed<int> {
    match parse_u16(b, p) {
        Ok((n, q)) => if q + n <= b.len() {
            Ok((q + n, q))
        } else {
            Err(ReadError::EndOfStream)
        },
        Err(e) => Err(e),
    }
}

// ---------------------------------------------------------------------
// Messages
// ---------------------------------------------------------------------

/// The byte that names the little-endian byte order in `XIM_CONNECT`.
pub open spec fn little_endian_mark() -> u8 {
    0x6c
}

pub open spec fn parse_connect(b: Seq<u8>, p: int) -> Parsed<ConnectView> {
    match parse_u8(b, p) {
        Ok((endian, p1)) => match parse_u8(b, p1) {
            Ok((_unused, p2)) => if endian != little_endian_mark() {
                Err(ReadError::InvalidData)
            } else {
                match parse_u16(b, p2) {
                    Ok((major, p3)) => match parse_u16(b, p3) {
                        Ok((minor, p4)) => match parse_u16(b, p4) {
                            Ok((count, p5)) => match parse_xim_strings_n(b, p5, count as nat) {
                                Ok((auth_names, p6)) => Ok(
                                    (ConnectView { major, minor, auth_names }, p6),
                                ),
                                Err(e) => Err(e),
                            },
                            Err(e) => Err(e),
                        },
                        Err(e) => Err(e),
                    },
                    Err(e) => Err(e),
                }
            },
            Err(e) => Err(e),
        },
        Err(e) => Err(e),
    }
}

pub open spec fn parse_connect_reply(b: Seq<u8>, p: int) -> Parsed<ConnectReplyView> {
    match parse_u16(b, p) {
        Ok((major, p1)) => match parse_u16(b, p1) {
            Ok((minor, p2)) => Ok((ConnectReplyView { major, minor }, p2)),
            Err(e) => Err(e),
        },
        Err(e) => Err(e),
    }
}

pub open spec fn connect_reply_bytes(v: ConnectReplyView) -> Seq<u8> {
    u16_bytes(v.major) + u16_bytes(v.minor)
}

pub open spec fn parse_open(b: Seq<u8>, p: int) -> Parsed<OpenView> {
    match parse_xim_str(b, p) {
        Ok((name, q)) => Ok((OpenView { name }, skip_pad(b, q))),
        Err(e) => Err(e),
    }
}

pub open spec fn open_bytes(off: int, v: OpenView) -> Seq<u8> {
    padded(off, xim_str_bytes(v.name))
}

pub open spec fn parse_open_reply(b: Seq<u8>, p: int) -> Parsed<OpenReplyView> {
    match parse_u16(b, p) {
        Ok((input_method_id, p1)) => match parse_len_field(b, p1) {
            Ok((end1, p2)) => match parse_attrs_until(b, p2, end1) {
                Ok((xim_attributes, p3)) => match parse_u16(b, p3) {
                    Ok((len2, p4)) => match parse_u16(b, p4) {
                        Ok((_unused, p5)) => if p5 + len2 <= b.len() {
                            match parse_attrs_until(b, p5, p5 + len2) {
                                Ok((xic_attributes, p6)) => Ok(
                                    (
                                        OpenReplyView {
                                            input_method_id,
                                            xim_attributes,
                                            xic_attributes,
                                        },
                                        p6,
                                    ),
                                ),
                                Err(e) => Err(e),
                            }
                        } else {
                            Err(ReadError::EndOfStream)
                        },
                        Err(e) => Err(e),
                    },
                    Err(e) => Err(e),
                },
                Err(e) => Err(e),
            },
            Err(e) => Err(e),
        },
        Err(e) => Err(e),
    }
}

/// The attribute lists are preceded by their byte counts; the count of the
/// second list excludes the 16 unused bits in front of it.
pub open spec fn open_reply_bytes(off: int, v: OpenReplyView) -> Seq<u8> {
    let a1 = attrs_bytes(off + 4, v.xim_attributes);
    let a2 = attrs_bytes(off + 8 + a1.len(), v.xic_attributes);
    u16_bytes(v.input_method_id) + u16_bytes(a1.len() as u16) + a1 + u16_bytes(a2.len() as u16)
        + u16_bytes(0) + a2
}

pub open spec fn parse_query_extension(b: Seq<u8>, p: int) -> Parsed<QueryExtensionView> {
    match parse_u16(b, p) {
        Ok((input_method_id, p1)) => match parse_len_field(b, p1) {
            Ok((end, p2)) => match parse_xim_strs_until(b, p2, end) {
                Ok((extensions, p3)) => Ok(
                    (QueryExtensionView { input_method_id, extensions }, skip_pad(b, p3)),
                ),
                Err(e) => Err(e),
            },
            Err(e) => Err(e),
        },
        Err(e) => Err(e),
    }
}

/// Writing an `XIM_QUERY_EXTENSION` puts out the input method id alone.
pub open spec fn query_extension_bytes(v: QueryExtensionView) -> Seq<u8> {
    u16_bytes(v.input_method_id)
}

pub open spec fn parse_query_extension_reply(b: Seq<u8>, p: int) -> Parsed<
    QueryExtensionReplyView,
> {
    match parse_u16(b, p) {
        Ok((input_method_id, p1)) => match parse_len_field(b, p1) {
            Ok((end, p2)) => match parse_extensions_until(b, p2, end) {
                Ok((extensions, p3)) => Ok(
                    (QueryExtensionReplyView { input_method_id, extensions }, skip_pad(b, p3)),
                ),
                Err(e) => Err(e),
            },
            Err(e) => Err(e),
        },
        Err(e) => Err(e),
    }
}

pub open spec fn query_extension_reply_bytes(off: int, v: QueryExtensionReplyView) -> Seq<u8> {
    let exts = extensions_bytes(off + 4, v.extensions);
    padded(off, u16_bytes(v.input_method_id) + u16_bytes(exts.len() as u16) + exts)
}

// ---------------------------------------------------------------------
// Fixed-size values
// ---------------------------------------------------------------------

/// A 32-bit code, decoded by `f`; a code that `f` does not know is invalid
/// data.
pub open spec fn parse_code32<T>(b: Seq<u8>, p: int, f: spec_fn(u32) -> Option<T>) -> Parsed<T> {
    match parse_u32(b, p) {
        Ok((v, q)) => match f(v) {
            Some(x) => Ok((x, q)),
            None => Err(ReadError::InvalidData),
        },
        Err(e) => Err(e),
    }
}

/// A 16-bit code, decoded by `f`.
pub open spec fn parse_code16<T>(b: Seq<u8>, p: int, f: spec_fn(u16) -> Option<T>) -> Parsed<T> {
    match parse_u16(b, p) {
        Ok((v, q)) => match f(v) {
            Some(x) => Ok((x, q)),
            None => Err(ReadError::InvalidData),
        },
        Err(e) => Err(e),
    }
}

pub open spec fn parse_caret_direction(b: Seq<u8>, p: int) -> Parsed<CaretDirection> {
    parse_code32(b, p, |v: u32| CaretDirection::from_code(v))
}

pub open spec fn parse_caret_style(b: Seq<u8>, p: int) -> Parsed<CaretStyle> {
    parse_code32(b, p, |v: u32| CaretStyle::from_code(v))
}

pub open spec fn parse_preedit_caret(b: Seq<u8>, p: int) -> Parsed<PreeditCaret> {
    match parse_u16(b, p) {
        Ok((method_id, p1)) => match parse_u16(b, p1) {
            Ok((context_id, p2)) => match parse_i32(b, p2) {
                Ok((position, p3)) => match parse_caret_direction(b, p3) {
                    Ok((direction, p4)) => match parse_caret_style(b, p4) {
                        Ok((style, p5)) => Ok(
                            (PreeditCaret { method_id, context_id, position, direction, style }, p5),
                        ),
                        Err(e) => Err(e),
                    },
                    Err(e) => Err(e),
                },
                Err(e) => Err(e),
            },
            Err(e) => Err(e),
        },
        Err(e) => Err(e),
    }
}

pub open spec fn preedit_caret_bytes(v: PreeditCaret) -> Seq<u8> {
    u16_bytes(v.method_id) + u16_bytes(v.context_id) + u32_bytes(bits_of_i32(v.position))
        + u32_bytes(v.direction.code()) + u32_bytes(v.style.code())
}

pub open spec fn parse_preedit_caret_reply(b: Seq<u8>, p: int) -> Parsed<PreeditCaretReply> {
    match parse_u16(b, p) {
        Ok((method_id, p1)) => match parse_u16(b, p1) {
            Ok((context_id, p2)) => match parse_i32(b, p2) {
                Ok((position, p3)) => Ok((PreeditCaretReply { method_id, context_id, position }, p3)),
                Err(e) => Err(e),
            },
            Err(e) => Err(e),
        },
        Err(e) => Err(e),
    }
}

pub open spec fn preedit_caret_reply_bytes(v: PreeditCaretReply) -> Seq<u8> {
    u16_bytes(v.method_id) + u16_bytes(v.context_id) + u32_bytes(bits_of_i32(v.position))
}

pub open spec fn parse_preedit_done(b: Seq<u8>, p: int) -> Parsed<PreeditDone> {
    match parse_u16(b, p) {
        Ok((method_id, p1)) => match parse_u16(b, p1) {
            Ok((context_id, p2)) => Ok((PreeditDone { method_id, context_id }, p2)),
            Err(e) => Err(e),
        },
        Err(e) => Err(e),
    }
}

pub open spec fn preedit_done_bytes(v: PreeditDone) -> Seq<u8> {
    u16_bytes(v.method_id) + u16_bytes(v.context_id)
}

} // verus!
