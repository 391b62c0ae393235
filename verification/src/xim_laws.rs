//! Laws of the XIM codec: what is written is read back.
use crate::request::{
    content_bytes, header_bytes, parse_header, parse_request, request_bytes, request_opcode,
    Opcode, RequestHeader, RequestView,
};
use crate::wire::{
    le16, lemma_u16_roundtrip, pad_len, parse_bytes, parse_u16, parse_u8, skip_pad, u16_bytes,
    zeros,
};
use crate::xim_format::{
    attr_bytes, attr_bytes_fn, attrs_bytes, connect_reply_bytes, extension_bytes,
    extension_bytes_fn, extensions_bytes, open_bytes, open_reply_bytes, padded, parse_attr,
    parse_attrs_until, parse_connect_reply, parse_extension, parse_extensions_until,
    parse_len_field, parse_open, parse_open_reply, parse_query_extension_reply, parse_xim_str,
    parse_xim_string, query_extension_reply_bytes, seq_bytes, xim_str_bytes, xim_string_bytes,
};
use crate::xim_types::{AttrView, ExtensionView, OpenReplyView, QueryExtensionReplyView};
use vstd::prelude::*;

verus! {

// ---------------------------------------------------------------------
// Which requests can be written and read back
// ---------------------------------------------------------------------

pub open spec fn attrs_fit(s: Seq<AttrView>) -> bool {
    forall|i: int| 0 <= i < s.len() ==> (#[trigger] s[i]).name.len() <= 0xffff
}

pub open spec fn extensions_fit(s: Seq<ExtensionView>) -> bool {
    forall|i: int| 0 <= i < s.len() ==> (#[trigger] s[i]).name.len() <= 0xffff
}

/// Every length field of the encoded request can hold its length, and
/// the request is of a kind whose written form its reader accepts:
/// `XIM_CONNECT` cannot be written, `XIM_QUERY_EXTENSION` is written
/// without its extension list, and the reply to it is not read as a
/// request.
pub open spec fn round_trips(r: RequestView) -> bool {
    match r {
        RequestView::Connect(_) => false,
        RequestView::QueryExtension(_) => false,
        RequestView::ConnectReply(_) => true,
        RequestView::Open(v) => v.name.len() <= 0xff,
        RequestView::OpenReply(v) => {
            let a1 = attrs_bytes(8, v.xim_attributes);
            &&& attrs_fit(v.xim_attributes)
            &&& attrs_fit(v.xic_attributes)
            &&& a1.len() <= 0xffff
            &&& attrs_bytes(12 + a1.len() as int, v.xic_attributes).len() <= 0xffff
        },
        RequestView::QueryExtensionReply(_) => false,
    }
}

// ---------------------------------------------------------------------
// Reading what was written, piece by piece
// ---------------------------------------------------------------------

/// `b` holds `x` at `p`.
pub open spec fn holds_at(b: Seq<u8>, p: int, x: Seq<u8>) -> bool {
    &&& 0 <= p
    &&& p + x.len() <= b.len()
    &&& b.subrange(p, p + x.len()) == x
}

proof fn lemma_holds_split(b: Seq<u8>, p: int, x: Seq<u8>, y: Seq<u8>)
    requires
        holds_at(b, p, x + y),
    ensures
        holds_at(b, p, x),
        holds_at(b, p + x.len(), y),
{
    assert forall|i: int| 0 <= i < x.len() implies b.subrange(p, p + x.len())[i] == x[i] by {
        assert(b.subrange(p, p + (x + y).len())[i] == (x + y)[i]);
    }
    assert(b.subrange(p, p + x.len()) =~= x);
    assert forall|i: int| 0 <= i < y.len() implies b.subrange(
        p + x.len(),
        p + x.len() + y.len(),
    )[i] == y[i] by {
        assert(b.subrange(p, p + (x + y).len())[x.len() + i] == (x + y)[x.len() + i]);
    }
    assert(b.subrange(p + x.len(), p + x.len() + y.len()) =~= y);
}

proof fn lemma_u16_at(b: Seq<u8>, p: int, x: u16)
    requires
        holds_at(b, p, u16_bytes(x)),
    ensures
        parse_u16(b, p) == Ok::<(u16, int), crate::wire::ReadError>((x, p + 2)),
{
    lemma_u16_roundtrip(x);
    assert(b[p] == b.subrange(p, p + 2)[0]);
    assert(b[p + 1] == b.subrange(p, p + 2)[1]);
}

proof fn lemma_u8_at(b: Seq<u8>, p: int, x: u8)
    requires
        holds_at(b, p, seq![x]),
    ensures
        parse_u8(b, p) == Ok::<(u8, int), crate::wire::ReadError>((x, p + 1)),
{
    assert(b[p] == b.subrange(p, p + 1)[0]);
}

proof fn lemma_xim_string_at(b: Seq<u8>, p: int, s: Seq<u8>)
    requires
        s.len() <= 0xffff,
        holds_at(b, p, xim_string_bytes(s)),
    ensures
        parse_xim_string(b, p) == Ok::<(Seq<u8>, int), crate::wire::ReadError>(
            (s, p + 2 + s.len()),
        ),
{
    lemma_holds_split(b, p, u16_bytes(s.len() as u16), s);
    lemma_u16_at(b, p, s.len() as u16);
}

proof fn lemma_xim_str_at(b: Seq<u8>, p: int, s: Seq<u8>)
    requires
        s.len() <= 0xff,
        holds_at(b, p, xim_str_bytes(s)),
    ensures
        parse_xim_str(b, p) == Ok::<(Seq<u8>, int), crate::wire::ReadError>(
            (s, p + 1 + s.len()),
        ),
{
    lemma_holds_split(b, p, seq![s.len() as u8], s);
    lemma_u8_at(b, p, s.len() as u8);
}

/// Skipping the padding that `padded` wrote lands right after it.
proof fn lemma_skip_written_pad(b: Seq<u8>, p: int, core: Seq<u8>)
    requires
        holds_at(b, p, padded(p, core)),
    ensures
        skip_pad(b, p + core.len()) == p + padded(p, core).len(),
{
}

proof fn lemma_attr_at(b: Seq<u8>, p: int, a: AttrView)
    requires
        a.name.len() <= 0xffff,
        holds_at(b, p, attr_bytes(p, a)),
    ensures
        parse_attr(b, p) == Ok::<(AttrView, int), crate::wire::ReadError>(
            (a, p + attr_bytes(p, a).len()),
        ),
{
    let core = u16_bytes(a.id) + u16_bytes(a.type_) + xim_string_bytes(a.name);
    lemma_holds_split(b, p, core, zeros(pad_len(p + core.len())));
    lemma_holds_split(b, p, u16_bytes(a.id) + u16_bytes(a.type_), xim_string_bytes(a.name));
    lemma_holds_split(b, p, u16_bytes(a.id), u16_bytes(a.type_));
    lemma_u16_at(b, p, a.id);
    lemma_u16_at(b, p + 2, a.type_);
    lemma_xim_string_at(b, p + 4, a.name);
    lemma_skip_written_pad(b, p, core);
}

proof fn lemma_extension_at(b: Seq<u8>, p: int, e: ExtensionView)
    requires
        e.name.len() <= 0xffff,
        holds_at(b, p, extension_bytes(p, e)),
    ensures
        parse_extension(b, p) == Ok::<(ExtensionView, int), crate::wire::ReadError>(
            (e, p + extension_bytes(p, e).len()),
        ),
{
    let core = seq![e.major_opcode, e.minor_opcode] + xim_string_bytes(e.name);
    lemma_holds_split(b, p, core, zeros(pad_len(p + core.len())));
    lemma_holds_split(b, p, seq![e.major_opcode, e.minor_opcode], xim_string_bytes(e.name));
    assert(seq![e.major_opcode] + seq![e.minor_opcode] =~= seq![e.major_opcode, e.minor_opcode]);
    lemma_holds_split(b, p, seq![e.major_opcode], seq![e.minor_opcode]);
    lemma_u8_at(b, p, e.major_opcode);
    lemma_u8_at(b, p + 1, e.minor_opcode);
    lemma_xim_string_at(b, p + 2, e.name);
    lemma_skip_written_pad(b, p, core);
}

proof fn lemma_attrs_at(b: Seq<u8>, p: int, s: Seq<AttrView>)
    requires
        attrs_fit(s),
        holds_at(b, p, attrs_bytes(p, s)),
    ensures
        parse_attrs_until(b, p, p + attrs_bytes(p, s).len()) == Ok::<
            (Seq<AttrView>, int),
            crate::wire::ReadError,
        >((s, p + attrs_bytes(p, s).len())),
    decreases s.len(),
{
    if s.len() == 0 {
        assert(s =~= Seq::<AttrView>::empty());
    } else {
        let head = attr_bytes(p, s[0]);
        let q = p + head.len();
        let tail = s.drop_first();
        assert(attrs_bytes(p, s) == head + attrs_bytes(q, tail));
        lemma_holds_split(b, p, head, attrs_bytes(q, tail));
        assert(s[0].name.len() <= 0xffff);
        lemma_attr_at(b, p, s[0]);
        assert(attrs_fit(tail)) by {
            assert forall|i: int| 0 <= i < tail.len() implies (#[trigger] tail[i]).name.len()
                <= 0xffff by {
                assert(tail[i] == s[i + 1]);
            }
        }
        lemma_attrs_at(b, q, tail);
        assert(seq![s[0]] + tail =~= s);
    }
}

proof fn lemma_extensions_at(b: Seq<u8>, p: int, s: Seq<ExtensionView>)
    requires
        extensions_fit(s),
        holds_at(b, p, extensions_bytes(p, s)),
    ensures
        parse_extensions_until(b, p, p + extensions_bytes(p, s).len()) == Ok::<
            (Seq<ExtensionView>, int),
            crate::wire::ReadError,
        >((s, p + extensions_bytes(p, s).len())),
    decreases s.len(),
{
    if s.len() == 0 {
        assert(s =~= Seq::<ExtensionView>::empty());
    } else {
        let head = extension_bytes(p, s[0]);
        let q = p + head.len();
        let tail = s.drop_first();
        assert(extensions_bytes(p, s) == head + extensions_bytes(q, tail));
        lemma_holds_split(b, p, head, extensions_bytes(q, tail));
        assert(s[0].name.len() <= 0xffff);
        lemma_extension_at(b, p, s[0]);
        assert(extensions_fit(tail)) by {
            assert forall|i: int| 0 <= i < tail.len() implies (#[trigger] tail[i]).name.len()
                <= 0xffff by {
                assert(tail[i] == s[i + 1]);
            }
        }
        lemma_extensions_at(b, q, tail);
        assert(seq![s[0]] + tail =~= s);
    }
}

// ---------------------------------------------------------------------
// Messages
// ---------------------------------------------------------------------

proof fn lemma_connect_reply_at(b: Seq<u8>, p: int, v: crate::xim_types::ConnectReplyView)
    requires
        holds_at(b, p, connect_reply_bytes(v)),
    ensures
        parse_connect_reply(b, p) == Ok::<
            (crate::xim_types::ConnectReplyView, int),
            crate::wire::ReadError,
        >((v, p + 4)),
{
    lemma_holds_split(b, p, u16_bytes(v.major), u16_bytes(v.minor));
    lemma_u16_at(b, p, v.major);
    lemma_u16_at(b, p + 2, v.minor);
}

proof fn lemma_open_at(b: Seq<u8>, p: int, v: crate::xim_types::OpenView)
    requires
        v.name.len() <= 0xff,
        holds_at(b, p, open_bytes(p, v)),
    ensures
        parse_open(b, p) == Ok::<(crate::xim_types::OpenView, int), crate::wire::ReadError>(
            (v, p + open_bytes(p, v).len()),
        ),
{
    let core = xim_str_bytes(v.name);
    lemma_holds_split(b, p, core, zeros(pad_len(p + core.len())));
    lemma_xim_str_at(b, p, v.name);
    lemma_skip_written_pad(b, p, core);
}

proof fn lemma_open_reply_at(b: Seq<u8>, p: int, v: OpenReplyView)
    requires
        attrs_fit(v.xim_attributes),
        attrs_fit(v.xic_attributes),
        attrs_bytes(p + 4, v.xim_attributes).len() <= 0xffff,
        attrs_bytes(
            p + 8 + attrs_bytes(p + 4, v.xim_attributes).len(),
            v.xic_attributes,
        ).len() <= 0xffff,
        holds_at(b, p, open_reply_bytes(p, v)),
    ensures
        parse_open_reply(b, p) == Ok::<(OpenReplyView, int), crate::wire::ReadError>(
            (v, p + open_reply_bytes(p, v).len()),
        ),
{
    let a1 = attrs_bytes(p + 4, v.xim_attributes);
    let a2 = attrs_bytes(p + 8 + a1.len(), v.xic_attributes);
    let x0 = u16_bytes(v.input_method_id);
    let x1 = x0 + u16_bytes(a1.len() as u16);
    let x2 = x1 + a1;
    let x3 = x2 + u16_bytes(a2.len() as u16);
    let x4 = x3 + u16_bytes(0);
    lemma_holds_split(b, p, x4, a2);
    lemma_holds_split(b, p, x3, u16_bytes(0));
    lemma_holds_split(b, p, x2, u16_bytes(a2.len() as u16));
    lemma_holds_split(b, p, x1, a1);
    lemma_holds_split(b, p, x0, u16_bytes(a1.len() as u16));
    lemma_u16_at(b, p, v.input_method_id);
    lemma_u16_at(b, p + 2, a1.len() as u16);
    lemma_attrs_at(b, p + 4, v.xim_attributes);
    lemma_u16_at(b, p + 4 + a1.len(), a2.len() as u16);
    lemma_u16_at(b, p + 6 + a1.len(), 0);
    lemma_attrs_at(b, p + 8 + a1.len(), v.xic_attributes);
}

proof fn lemma_query_extension_reply_at(b: Seq<u8>, p: int, v: QueryExtensionReplyView)
    requires
        extensions_fit(v.extensions),
        extensions_bytes(p + 4, v.extensions).len() <= 0xffff,
        holds_at(b, p, query_extension_reply_bytes(p, v)),
    ensures
        parse_query_extension_reply(b, p) == Ok::<
            (QueryExtensionReplyView, int),
            crate::wire::ReadError,
        >((v, p + query_extension_reply_bytes(p, v).len())),
{
    let exts = extensions_bytes(p + 4, v.extensions);
    let x0 = u16_bytes(v.input_method_id);
    let x1 = x0 + u16_bytes(exts.len() as u16);
    let core = x1 + exts;
    lemma_holds_split(b, p, core, zeros(pad_len(p + core.len())));
    lemma_holds_split(b, p, x1, exts);
    lemma_holds_split(b, p, x0, u16_bytes(exts.len() as u16));
    lemma_u16_at(b, p, v.input_method_id);
    lemma_u16_at(b, p + 2, exts.len() as u16);
    lemma_extensions_at(b, p + 4, v.extensions);
    lemma_skip_written_pad(b, p, core);
}

// ---------------------------------------------------------------------
// Whole requests
// ---------------------------------------------------------------------

proof fn lemma_header_at(b: Seq<u8>, h: RequestHeader)
    requires
        holds_at(b, 0, header_bytes(h)),
        h.major_opcode != Opcode::QueryExtensionReply,
    ensures
        parse_header(b, 0) == Ok::<(RequestHeader, int), crate::wire::ReadError>((h, 4)),
{
    let op = seq![h.major_opcode.code(), h.minor_opcode];
    lemma_holds_split(b, 0, op, u16_bytes(h.size));
    assert(seq![h.major_opcode.code()] + seq![h.minor_opcode] =~= op);
    lemma_holds_split(b, 0, seq![h.major_opcode.code()], seq![h.minor_opcode]);
    lemma_u8_at(b, 0, h.major_opcode.code());
    h.major_opcode.lemma_code_roundtrip();
    lemma_u8_at(b, 1, h.minor_opcode);
    lemma_u16_at(b, 2, h.size);
}

#[verifier::rlimit(60)]
#[verifier::spinoff_prover]
proof fn lemma_roundtrip_connect_reply(v: crate::xim_types::ConnectReplyView)
    requires
        
    ensures
        parse_request(request_bytes(RequestView::ConnectReply(v))) == Ok::<
            (RequestView, int),
            crate::wire::ReadError,
        >((RequestView::ConnectReply(v), request_bytes(RequestView::ConnectReply(v)).len() as int)),
{
    let r = RequestView::ConnectReply(v);
    let b = request_bytes(r);
    let content = content_bytes(4, r);
    let h = RequestHeader {
        major_opcode: request_opcode(r),
        minor_opcode: 0,
        size: (content.len() / 4) as u16,
    };
    assert(b.subrange(0, b.len() as int) =~= b);
    lemma_holds_split(b, 0, header_bytes(h), content);
    lemma_header_at(b, h);
    lemma_connect_reply_at(b, 4, v);
}

#[verifier::rlimit(60)]
#[verifier::spinoff_prover]
proof fn lemma_roundtrip_open(v: crate::xim_types::OpenView)
    requires
        v.name.len() <= 0xff,
    ensures
        parse_request(request_bytes(RequestView::Open(v))) == Ok::<
            (RequestView, int),
            crate::wire::ReadError,
        >((RequestView::Open(v), request_bytes(RequestView::Open(v)).len() as int)),
{
    let r = RequestView::Open(v);
    let b = request_bytes(r);
    let content = content_bytes(4, r);
    let h = RequestHeader {
        major_opcode: request_opcode(r),
        minor_opcode: 0,
        size: (content.len() / 4) as u16,
    };
    assert(b.subrange(0, b.len() as int) =~= b);
    lemma_holds_split(b, 0, header_bytes(h), content);
    lemma_header_at(b, h);
    lemma_open_at(b, 4, v);
}

#[verifier::rlimit(60)]
#[verifier::spinoff_prover]
proof fn lemma_roundtrip_open_reply(v: OpenReplyView)
    requires
        round_trips(RequestView::OpenReply(v)),
    ensures
        parse_request(request_bytes(RequestView::OpenReply(v))) == Ok::<
            (RequestView, int),
            crate::wire::ReadError,
        >((RequestView::OpenReply(v), request_bytes(RequestView::OpenReply(v)).len() as int)),
{
    let r = RequestView::OpenReply(v);
    let b = request_bytes(r);
    let content = content_bytes(4, r);
    let h = RequestHeader {
        major_opcode: request_opcode(r),
        minor_opcode: 0,
        size: (content.len() / 4) as u16,
    };
    assert(b.subrange(0, b.len() as int) =~= b);
    lemma_holds_split(b, 0, header_bytes(h), content);
    lemma_header_at(b, h);
    lemma_open_reply_at(b, 4, v);
}

/// Reading a written reply to a query for extensions gives back the
/// reply, and reading stops exactly at the end of what was written.
pub proof fn lemma_query_extension_reply_roundtrip(v: QueryExtensionReplyView)
    requires
        extensions_fit(v.extensions),
        extensions_bytes(4, v.extensions).len() <= 0xffff,
    ensures
        parse_query_extension_reply(query_extension_reply_bytes(0, v), 0) == Ok::<
            (QueryExtensionReplyView, int),
            crate::wire::ReadError,
        >((v, query_extension_reply_bytes(0, v).len() as int)),
{
    let b = query_extension_reply_bytes(0, v);
    assert(b.subrange(0, b.len() as int) =~= b);
    lemma_query_extension_reply_at(b, 0, v);
}

/// Reading a written request gives back the request, and reading stops
/// exactly at the end of what was written.
pub proof fn lemma_write_read_roundtrip(r: RequestView)
    requires
        round_trips(r),
    ensures
        parse_request(request_bytes(r)) == Ok::<(RequestView, int), crate::wire::ReadError>(
            (r, request_bytes(r).len() as int),
        ),
{
    match r {
        RequestView::ConnectReply(v) => lemma_roundtrip_connect_reply(v),
        RequestView::Open(v) => lemma_roundtrip_open(v),
        RequestView::OpenReply(v) => lemma_roundtrip_open_reply(v),
        _ => {},
    }
}

// ---------------------------------------------------------------------
// Offsets and lengths
// ---------------------------------------------------------------------

proof fn lemma_pad_len_shift4(x: int)
    ensures
        pad_len(x + 4) == pad_len(x),
        0 <= pad_len(x) < 4,
        (x + pad_len(x)) % 4 == 0,
{
}

proof fn lemma_attrs_shift4(off: int, s: Seq<AttrView>)
    ensures
        attrs_bytes(off + 4, s) == attrs_bytes(off, s),
    decreases s.len(),
{
    if s.len() > 0 {
        let a = s[0];
        let n = 6 + a.name.len();
        lemma_pad_len_shift4(off + n);
        assert(attr_bytes(off + 4, a) == attr_bytes(off, a));
        let h = attr_bytes(off, a);
        lemma_attrs_shift4(off + h.len(), s.drop_first());
        assert(off + 4 + h.len() == off + h.len() + 4);
    }
}

proof fn lemma_extensions_shift4(off: int, s: Seq<ExtensionView>)
    ensures
        extensions_bytes(off + 4, s) == extensions_bytes(off, s),
    decreases s.len(),
{
    if s.len() > 0 {
        let e = s[0];
        let n = 4 + e.name.len();
        lemma_pad_len_shift4(off + n);
        assert(extension_bytes(off + 4, e) == extension_bytes(off, e));
        let h = extension_bytes(off, e);
        lemma_extensions_shift4(off + h.len(), s.drop_first());
        assert(off + 4 + h.len() == off + h.len() + 4);
    }
}

/// Moving a request's content by four bytes does not change its bytes:
/// padding depends on the offset only modulo four.
pub proof fn lemma_content_shift4(off: int, r: RequestView)
    ensures
        content_bytes(off + 4, r) == content_bytes(off, r),
{
    match r {
        RequestView::Open(v) => {
            lemma_pad_len_shift4(off + 1 + v.name.len());
        },
        RequestView::OpenReply(v) => {
            lemma_attrs_shift4(off + 4, v.xim_attributes);
            let a1 = attrs_bytes(off + 4, v.xim_attributes);
            lemma_attrs_shift4(off + 8 + a1.len(), v.xic_attributes);
            assert(off + 4 + 8 + a1.len() == off + 8 + a1.len() + 4);
        },
        RequestView::QueryExtensionReply(v) => {
            lemma_extensions_shift4(off + 4, v.extensions);
            let e = extensions_bytes(off + 4, v.extensions);
            lemma_pad_len_shift4(off + 4 + e.len());
        },
        _ => {},
    }
}

proof fn lemma_aligned_sum(off: int, hl: int, rl: int)
    requires
        off % 4 == 0,
        (off + hl) % 4 == 0,
        rl % 4 == 0,
    ensures
        (hl + rl) % 4 == 0,
{
}

#[verifier::spinoff_prover]
proof fn lemma_attrs_aligned(off: int, s: Seq<AttrView>)
    requires
        off % 4 == 0,
    ensures
        attrs_bytes(off, s).len() % 4 == 0,
    decreases s.len(),
{
    if s.len() > 0 {
        let a = s[0];
        let core = u16_bytes(a.id) + u16_bytes(a.type_) + xim_string_bytes(a.name);
        assert(core.len() == 6 + a.name.len());
        lemma_pad_len_shift4(off + core.len());
        let h = attr_bytes(off, a);
        let hl = h.len() as int;
        assert(hl == core.len() + pad_len(off + core.len()));
        lemma_attrs_aligned(off + hl, s.drop_first());
        let rest = attrs_bytes(off + hl, s.drop_first());
        assert(attrs_bytes(off, s) == h + rest);
        lemma_aligned_sum(off, hl, rest.len() as int);
    }
}

#[verifier::spinoff_prover]
proof fn lemma_extensions_aligned(off: int, s: Seq<ExtensionView>)
    requires
        off % 4 == 0,
    ensures
        extensions_bytes(off, s).len() % 4 == 0,
    decreases s.len(),
{
    if s.len() > 0 {
        let e = s[0];
        let core = seq![e.major_opcode, e.minor_opcode] + xim_string_bytes(e.name);
        assert(core.len() == 4 + e.name.len());
        lemma_pad_len_shift4(off + core.len());
        let h = extension_bytes(off, e);
        let hl = h.len() as int;
        assert(hl == core.len() + pad_len(off + core.len()));
        lemma_extensions_aligned(off + hl, s.drop_first());
        let rest = extensions_bytes(off + hl, s.drop_first());
        assert(extensions_bytes(off, s) == h + rest);
        lemma_aligned_sum(off, hl, rest.len() as int);
    }
}

/// The content of every request that round-trips fills whole four-byte
/// units.
pub proof fn lemma_content_aligned(r: RequestView)
    requires
        round_trips(r),
    ensures
        content_bytes(4, r).len() % 4 == 0,
{
    match r {
        RequestView::Open(v) => {
            lemma_pad_len_shift4(4 + 1 + v.name.len() as int);
        },
        RequestView::OpenReply(v) => {
            lemma_attrs_aligned(8, v.xim_attributes);
            let a1 = attrs_bytes(8, v.xim_attributes);
            lemma_attrs_aligned(12 + a1.len() as int, v.xic_attributes);
        },
        RequestView::QueryExtensionReply(v) => {
            let e = extensions_bytes(8, v.extensions);
            lemma_pad_len_shift4(8 + e.len() as int);
        },
        _ => {},
    }
}

/// The size field of a written header counts the content in four-byte
/// units, whenever that count fits in 16 bits.
pub proof fn lemma_header_size(r: RequestView)
    requires
        round_trips(r),
        content_bytes(4, r).len() < 0x40000,
    ensures
        parse_header(request_bytes(r), 0) matches Ok((h, _)) && request_bytes(r).len() == 4 + 4
            * h.size,
{
    lemma_content_aligned(r);
    let content = content_bytes(4, r);
    let h = RequestHeader {
        major_opcode: request_opcode(r),
        minor_opcode: 0,
        size: (content.len() / 4) as u16,
    };
    let b = request_bytes(r);
    assert(b == header_bytes(h) + content);
    assert(b.subrange(0, b.len() as int) =~= b);
    lemma_holds_split(b, 0, header_bytes(h), content);
    lemma_header_at(b, h);
    assert(h.size == content.len() / 4);
}

// ---------------------------------------------------------------------
// The layout of an attribute
// ---------------------------------------------------------------------

/// An attribute is written as its id, then its type, each in two bytes
/// with the low byte first, then the length of its name in the same form,
/// the name, and zero bytes up to a multiple of four.
pub proof fn law_attr_layout(off: int, a: AttrView)
    requires
        a.name.len() <= 0xffff,
    ensures
        attr_bytes(off, a).len() >= 6 + a.name.len(),
        attr_bytes(off, a)[0] == a.id % 256,
        attr_bytes(off, a)[1] == a.id / 256,
        attr_bytes(off, a)[2] == a.type_ % 256,
        attr_bytes(off, a)[3] == a.type_ / 256,
        attr_bytes(off, a)[4] + 256 * attr_bytes(off, a)[5] == a.name.len(),
        attr_bytes(off, a).subrange(6, 6 + a.name.len() as int) == a.name,
        forall|k: int|
            6 + a.name.len() <= k < attr_bytes(off, a).len() ==> #[trigger] attr_bytes(off, a)[k]
                == 0,
        (off + attr_bytes(off, a).len()) % 4 == 0,
{
    let core = u16_bytes(a.id) + u16_bytes(a.type_) + xim_string_bytes(a.name);
    let b = attr_bytes(off, a);
    assert(b =~= core + zeros(pad_len(off + core.len())));
    assert(b.subrange(6, 6 + a.name.len() as int) =~= a.name);
    lemma_pad_len_shift4(off + core.len());
}

/// Reading an attribute takes its id from the first two bytes and its
/// type from the next two, low byte first, and its name from the bytes
/// after the name's length.
pub proof fn law_attr_fields(b: Seq<u8>, p: int)
    ensures
        parse_attr(b, p) matches Ok((a, q)) ==> {
            &&& 0 <= p && p + 6 <= b.len()
            &&& a.id == b[p] + 256 * b[p + 1]
            &&& a.type_ == b[p + 2] + 256 * b[p + 3]
            &&& a.name == b.subrange(p + 6, p + 6 + (b[p + 4] + 256 * b[p + 5]))
            &&& q >= p + 6 + a.name.len()
        },
{
}

/// The reply to `XIM_OPEN` is written as the input method id, the byte
/// count of the attributes of the input method, those attributes, the byte
/// count of the attributes of input contexts, two unused bytes and those
/// attributes; the first attribute begins right after the first count.
pub proof fn law_open_reply_layout(off: int, v: OpenReplyView)
    ensures
        ({
            let b = open_reply_bytes(off, v);
            let a1 = attrs_bytes(off + 4, v.xim_attributes);
            let a2 = attrs_bytes(off + 8 + a1.len(), v.xic_attributes);
            &&& b.subrange(0, 2) == u16_bytes(v.input_method_id)
            &&& b.subrange(2, 4) == u16_bytes(a1.len() as u16)
            &&& b.subrange(4, 4 + a1.len() as int) == a1
            &&& b.subrange(4 + a1.len() as int, 6 + a1.len() as int) == u16_bytes(a2.len() as u16)
            &&& b.subrange(6 + a1.len() as int, 8 + a1.len() as int) == u16_bytes(0)
            &&& b.subrange(8 + a1.len() as int, b.len() as int) == a2
            &&& v.xim_attributes.len() > 0 ==> a1.subrange(
                0,
                attr_bytes(off + 4, v.xim_attributes[0]).len() as int,
            ) == attr_bytes(off + 4, v.xim_attributes[0])
        }),
{
    let b = open_reply_bytes(off, v);
    let a1 = attrs_bytes(off + 4, v.xim_attributes);
    let a2 = attrs_bytes(off + 8 + a1.len(), v.xic_attributes);
    assert(b.subrange(0, 2) =~= u16_bytes(v.input_method_id));
    assert(b.subrange(2, 4) =~= u16_bytes(a1.len() as u16));
    assert(b.subrange(4, 4 + a1.len() as int) =~= a1);
    assert(b.subrange(4 + a1.len() as int, 6 + a1.len() as int) =~= u16_bytes(a2.len() as u16));
    assert(b.subrange(6 + a1.len() as int, 8 + a1.len() as int) =~= u16_bytes(0));
    assert(b.subrange(8 + a1.len() as int, b.len() as int) =~= a2);
    if v.xim_attributes.len() > 0 {
        let h = attr_bytes(off + 4, v.xim_attributes[0]);
        assert(a1 == h + attrs_bytes(off + 4 + h.len(), v.xim_attributes.drop_first()));
        assert(a1.subrange(0, h.len() as int) =~= h);
    }
}

} // verus!
