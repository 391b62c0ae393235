//! Reading a request looks only at the request's own bytes: whatever
//! follows it in the input does not change what is read.
use crate::request::{parse_header, parse_opcode, parse_request, parse_request_at, Opcode};
use crate::wire::{parse_bytes, parse_u16, parse_u8, skip_pad, Parsed, ReadError};
use crate::xim_format::{
    lemma_attr_progress, lemma_xim_str_progress, parse_attr, parse_attrs_until, parse_connect,
    parse_connect_reply, parse_len_field, parse_open, parse_open_reply, parse_query_extension,
    parse_xim_str, parse_xim_string, parse_xim_strings_n, parse_xim_strs_until,
};
use crate::xim_types::{AttrView, OpenReplyView};
use vstd::prelude::*;

verus! {

/// What was read from `b` is read from the longer input too, with the same
/// value; it ends at the same position, unless it ended at the end of `b`
/// (padding cut short there), where it may end further on.
pub open spec fn carries_over<V>(r: Parsed<V>, r2: Parsed<V>, n: int) -> bool {
    r matches Ok((v, q)) ==> (r2 matches Ok((v2, q2)) && v2 == v && (q2 == q || (q == n && q2
        >= n)))
}

proof fn lemma_u8_prefix(b: Seq<u8>, e: Seq<u8>, p: int)
    ensures
        parse_u8(b, p) is Ok ==> parse_u8(b + e, p) == parse_u8(b, p),
{
}

proof fn lemma_u16_prefix(b: Seq<u8>, e: Seq<u8>, p: int)
    ensures
        parse_u16(b, p) is Ok ==> parse_u16(b + e, p) == parse_u16(b, p),
{
}

proof fn lemma_bytes_prefix(b: Seq<u8>, e: Seq<u8>, p: int, n: int)
    ensures
        parse_bytes(b, p, n) is Ok ==> parse_bytes(b + e, p, n) == parse_bytes(b, p, n),
{
    if parse_bytes(b, p, n) is Ok {
        assert((b + e).subrange(p, p + n) =~= b.subrange(p, p + n));
    }
}

proof fn lemma_xim_string_prefix(b: Seq<u8>, e: Seq<u8>, p: int)
    ensures
        parse_xim_string(b, p) is Ok ==> parse_xim_string(b + e, p) == parse_xim_string(b, p),
{
    lemma_u16_prefix(b, e, p);
    if let Ok((n, q)) = parse_u16(b, p) {
        lemma_bytes_prefix(b, e, q, n as int);
    }
}

proof fn lemma_xim_str_prefix(b: Seq<u8>, e: Seq<u8>, p: int)
    ensures
        parse_xim_str(b, p) is Ok ==> parse_xim_str(b + e, p) == parse_xim_str(b, p),
{
    lemma_u8_prefix(b, e, p);
    if let Ok((n, q)) = parse_u8(b, p) {
        lemma_bytes_prefix(b, e, q, n as int);
    }
}

proof fn lemma_len_field_prefix(b: Seq<u8>, e: Seq<u8>, p: int)
    ensures
        parse_len_field(b, p) is Ok ==> parse_len_field(b + e, p) == parse_len_field(b, p),
        parse_len_field(b, p) matches Ok((end, q)) ==> end <= b.len(),
{
    lemma_u16_prefix(b, e, p);
}

/// Padding skipped in `b` is skipped alike in the longer input, or was cut
/// short at the end of `b`.
proof fn lemma_skip_pad_prefix(b: Seq<u8>, e: Seq<u8>, p: int)
    requires
        p <= b.len(),
    ensures
        skip_pad(b + e, p) == skip_pad(b, p) || (skip_pad(b, p) == b.len() && skip_pad(b + e, p)
            >= b.len()),
        skip_pad(b, p) >= p,
{
}

proof fn lemma_attr_prefix(b: Seq<u8>, e: Seq<u8>, p: int)
    ensures
        carries_over(parse_attr(b, p), parse_attr(b + e, p), b.len() as int),
{
    lemma_u16_prefix(b, e, p);
    if let Ok((_, p1)) = parse_u16(b, p) {
        lemma_u16_prefix(b, e, p1);
        if let Ok((_, p2)) = parse_u16(b, p1) {
            lemma_xim_string_prefix(b, e, p2);
            if let Ok((_, p3)) = parse_xim_string(b, p2) {
                lemma_skip_pad_prefix(b, e, p3);
            }
        }
    }
}

proof fn lemma_attrs_until_prefix(b: Seq<u8>, e: Seq<u8>, p: int, end: int)
    requires
        end <= b.len(),
    ensures
        carries_over(parse_attrs_until(b, p, end), parse_attrs_until(b + e, p, end), b.len() as int),
    decreases b.len() - p,
{
    if p < end {
        lemma_attr_progress(b, p);
        lemma_attr_prefix(b, e, p);
        if let Ok((a, q)) = parse_attr(b, p) {
            let c = b + e;
            let q2 = parse_attr(c, p)->Ok_0.1;
            if q2 == q {
                lemma_attrs_until_prefix(b, e, q, end);
            } else {
                assert(parse_attrs_until(b, q, end) == Ok::<(Seq<AttrView>, int), ReadError>(
                    (Seq::empty(), q),
                ));
                assert(parse_attrs_until(c, q2, end) == Ok::<(Seq<AttrView>, int), ReadError>(
                    (Seq::empty(), q2),
                ));
            }
        }
    }
}

proof fn lemma_xim_strs_until_prefix(b: Seq<u8>, e: Seq<u8>, p: int, end: int)
    requires
        p <= b.len(),
    ensures
        parse_xim_strs_until(b, p, end) is Ok ==> parse_xim_strs_until(b + e, p, end)
            == parse_xim_strs_until(b, p, end),
        parse_xim_strs_until(b, p, end) matches Ok((_, r)) ==> r <= b.len(),
    decreases b.len() - p,
{
    if p < end {
        lemma_xim_str_progress(b, p);
        lemma_xim_str_prefix(b, e, p);
        if let Ok((_, q)) = parse_xim_str(b, p) {
            lemma_xim_strs_until_prefix(b, e, q, end);
        }
    }
}

proof fn lemma_xim_strings_n_prefix(b: Seq<u8>, e: Seq<u8>, p: int, n: nat)
    ensures
        parse_xim_strings_n(b, p, n) is Ok ==> parse_xim_strings_n(b + e, p, n)
            == parse_xim_strings_n(b, p, n),
    decreases n,
{
    if n > 0 {
        lemma_xim_string_prefix(b, e, p);
        if let Ok((_, q)) = parse_xim_string(b, p) {
            lemma_xim_strings_n_prefix(b, e, q, (n - 1) as nat);
        }
    }
}

proof fn lemma_connect_prefix(b: Seq<u8>, e: Seq<u8>, p: int)
    ensures
        parse_connect(b, p) is Ok ==> parse_connect(b + e, p) == parse_connect(b, p),
{
    lemma_u8_prefix(b, e, p);
    if let Ok((_, p1)) = parse_u8(b, p) {
        lemma_u8_prefix(b, e, p1);
        if let Ok((_, p2)) = parse_u8(b, p1) {
            lemma_u16_prefix(b, e, p2);
            if let Ok((_, p3)) = parse_u16(b, p2) {
                lemma_u16_prefix(b, e, p3);
                if let Ok((_, p4)) = parse_u16(b, p3) {
                    lemma_u16_prefix(b, e, p4);
                    if let Ok((count, p5)) = parse_u16(b, p4) {
                        lemma_xim_strings_n_prefix(b, e, p5, count as nat);
                    }
                }
            }
        }
    }
}

proof fn lemma_connect_reply_prefix(b: Seq<u8>, e: Seq<u8>, p: int)
    ensures
        parse_connect_reply(b, p) is Ok ==> parse_connect_reply(b + e, p) == parse_connect_reply(
            b,
            p,
        ),
{
    lemma_u16_prefix(b, e, p);
    if let Ok((_, p1)) = parse_u16(b, p) {
        lemma_u16_prefix(b, e, p1);
    }
}

proof fn lemma_open_prefix(b: Seq<u8>, e: Seq<u8>, p: int)
    ensures
        carries_over(parse_open(b, p), parse_open(b + e, p), b.len() as int),
{
    lemma_xim_str_prefix(b, e, p);
    if let Ok((_, q)) = parse_xim_str(b, p) {
        lemma_skip_pad_prefix(b, e, q);
    }
}

proof fn lemma_open_reply_prefix(b: Seq<u8>, e: Seq<u8>, p: int)
    ensures
        carries_over(parse_open_reply(b, p), parse_open_reply(b + e, p), b.len() as int),
{
    let c = b + e;
    lemma_u16_prefix(b, e, p);
    if let Ok((_, p1)) = parse_u16(b, p) {
        lemma_len_field_prefix(b, e, p1);
        if let Ok((end1, p2)) = parse_len_field(b, p1) {
            lemma_attrs_until_prefix(b, e, p2, end1);
            if let Ok((_, p3)) = parse_attrs_until(b, p2, end1) {
                if parse_u16(b, p3) is Ok {
                    // The list did not end at the end of `b`, so it ends at
                    // the same place in the longer input.
                    assert(parse_attrs_until(c, p2, end1)->Ok_0.1 == p3);
                    lemma_u16_prefix(b, e, p3);
                    let p4 = parse_u16(b, p3)->Ok_0.1;
                    let len2 = parse_u16(b, p3)->Ok_0.0;
                    lemma_u16_prefix(b, e, p4);
                    if let Ok((_, p5)) = parse_u16(b, p4) {
                        if p5 + len2 <= b.len() {
                            lemma_attrs_until_prefix(b, e, p5, p5 + len2);
                        }
                    }
                }
            }
        }
    }
}

proof fn lemma_query_extension_prefix(b: Seq<u8>, e: Seq<u8>, p: int)
    ensures
        carries_over(parse_query_extension(b, p), parse_query_extension(b + e, p), b.len() as int),
{
    lemma_u16_prefix(b, e, p);
    if let Ok((_, p1)) = parse_u16(b, p) {
        lemma_len_field_prefix(b, e, p1);
        if let Ok((end, p2)) = parse_len_field(b, p1) {
            lemma_xim_strs_until_prefix(b, e, p2, end);
            if let Ok((_, p3)) = parse_xim_strs_until(b, p2, end) {
                lemma_skip_pad_prefix(b, e, p3);
            }
        }
    }
}

proof fn lemma_header_prefix(b: Seq<u8>, e: Seq<u8>, p: int)
    ensures
        parse_header(b, p) is Ok ==> parse_header(b + e, p) == parse_header(b, p),
        parse_header(b, p) matches Ok((h, _)) ==> h.major_opcode != Opcode::QueryExtensionReply,
{
    lemma_u8_prefix(b, e, p);
    if let Ok((_, p1)) = parse_opcode(b, p) {
        lemma_u8_prefix(b, e, p1);
        if let Ok((_, p2)) = parse_u8(b, p1) {
            lemma_u16_prefix(b, e, p2);
        }
    }
}

/// Bytes after a request do not change what is read: a request read from
/// `b` is read, the same, from `b` followed by any other bytes.
pub proof fn law_trailing_bytes_ignored(b: Seq<u8>, e: Seq<u8>)
    ensures
        parse_request(b) matches Ok((v, _)) ==> (parse_request(b + e) matches Ok((v2, _))
            && v2 == v),
{
    lemma_header_prefix(b, e, 0);
    if let Ok((h, p)) = parse_header(b, 0) {
        match h.major_opcode {
            Opcode::Connect => lemma_connect_prefix(b, e, p),
            Opcode::ConnectReply => lemma_connect_reply_prefix(b, e, p),
            Opcode::Open => lemma_open_prefix(b, e, p),
            Opcode::OpenReply => lemma_open_reply_prefix(b, e, p),
            Opcode::QueryExtension => lemma_query_extension_prefix(b, e, p),
            Opcode::QueryExtensionReply => {},
        }
    }
    assert(parse_request(b) == parse_request_at(b, 0));
}

} // verus!
