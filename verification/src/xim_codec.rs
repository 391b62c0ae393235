//! Reading and writing the XIM values, each proved against the grammar in
//! `xim_format`.
use crate::wire::{
    pad_len, put_pad, skip_pad, u16_bytes, u32_bytes, write_bytes, write_pad, zeros,
    ReadError, Reader, Writable,
};
use crate::xim_format::{
    attr_bytes, attr_bytes_fn, attrs_bytes, extension_bytes, extension_bytes_fn, extensions_bytes,
    lemma_attr_progress, lemma_extension_progress, lemma_seq_bytes_push, lemma_xim_str_progress,
    parse_attr, parse_attrs_until, parse_extension, parse_extensions_until, parse_xim_str,
    parse_xim_strs_until, parse_xim_string, xim_str_bytes, xim_string_bytes,
};
use crate::xim_types::{
    view_attrs, view_extensions, view_strs, Attr, AttrView, Extension, ExtensionView, XimStr,
    XimString,
};
use std::marker::PhantomData;
use vstd::prelude::*;

verus! {

// ---------------------------------------------------------------------
// Strings
// ---------------------------------------------------------------------

impl<'a> XimString<'a> {
    pub fn read(reader: &mut Reader<'a>) -> (res: Result<Self, ReadError>)
        requires
            old(reader).wf(),
        ensures
            final(reader).wf(),
            final(reader).bytes() == old(reader).bytes(),
            match parse_xim_string(old(reader).bytes(), old(reader).pos()) {
                Ok((v, q)) => res matches Ok(x) && x@ == v && final(reader).pos() == q,
                Err(e) => res == Err::<Self, ReadError>(e),
            },
    {
        let len = reader.u16()?;
        let string = reader.consume(len as usize)?;
        Ok(XimString(string))
    }
}

impl<'a> Writable for XimString<'a> {
    open spec fn encoded(&self, before: Seq<u8>) -> Seq<u8> {
        before + xim_string_bytes(self@)
    }

    fn write(&self, out: &mut Vec<u8>) {
        (self.0.len() as u16).write(out);
        write_bytes(out, self.0);
        assert(out@ =~= old(out)@ + xim_string_bytes(self@));
    }

    fn size(&self) -> (n: usize) {
        let mut v: Vec<u8> = Vec::new();
        self.write(&mut v);
        v.len()
    }
}

impl<'a> XimStr<'a> {
    pub fn read(reader: &mut Reader<'a>) -> (res: Result<Self, ReadError>)
        requires
            old(reader).wf(),
        ensures
            final(reader).wf(),
            final(reader).bytes() == old(reader).bytes(),
            match parse_xim_str(old(reader).bytes(), old(reader).pos()) {
                Ok((v, q)) => res matches Ok(x) && x@ == v && final(reader).pos() == q,
                Err(e) => res == Err::<Self, ReadError>(e),
            },
    {
        let len = reader.u8()?;
        let string = reader.consume(len as usize)?;
        Ok(XimStr(string))
    }
}

impl<'a> Writable for XimStr<'a> {
    open spec fn encoded(&self, before: Seq<u8>) -> Seq<u8> {
        before + xim_str_bytes(self@)
    }

    fn write(&self, out: &mut Vec<u8>) {
        out.push(self.0.len() as u8);
        write_bytes(out, self.0);
        assert(out@ =~= old(out)@ + xim_str_bytes(self@));
    }

    fn size(&self) -> (n: usize) {
        let mut v: Vec<u8> = Vec::new();
        self.write(&mut v);
        v.len()
    }
}

// ---------------------------------------------------------------------
// Attributes and extensions
// ---------------------------------------------------------------------

impl<'a> Attr<'a> {
    pub fn read(reader: &mut Reader<'a>) -> (res: Result<Self, ReadError>)
        requires
            old(reader).wf(),
        ensures
            final(reader).wf(),
            final(reader).bytes() == old(reader).bytes(),
            match parse_attr(old(reader).bytes(), old(reader).pos()) {
                Ok((v, q)) => res matches Ok(x) && x@ == v && final(reader).pos() == q,
                Err(e) => res == Err::<Self, ReadError>(e),
            },
    {
        let id = reader.u16()?;
        let type_ = reader.u16()?;
        let name = XimString::read(reader)?;
        reader.pad();
        Ok(Attr { id, type_, name })
    }
}

impl<'a> Writable for Attr<'a> {
    open spec fn encoded(&self, before: Seq<u8>) -> Seq<u8> {
        before + attr_bytes(before.len() as int, self@)
    }

    fn write(&self, out: &mut Vec<u8>) {
        self.id.write(out);
        self.type_.write(out);
        self.name.write(out);
        write_pad(out);
        assert(out@ =~= old(out)@ + attr_bytes(old(out)@.len() as int, self@));
    }

    fn size(&self) -> (n: usize) {
        let mut v: Vec<u8> = Vec::new();
        self.write(&mut v);
        v.len()
    }
}

impl<'a> Extension<'a> {
    pub fn read(reader: &mut Reader<'a>) -> (res: Result<Self, ReadError>)
        requires
            old(reader).wf(),
        ensures
            final(reader).wf(),
            final(reader).bytes() == old(reader).bytes(),
            match parse_extension(old(reader).bytes(), old(reader).pos()) {
                Ok((v, q)) => res matches Ok(x) && x@ == v && final(reader).pos() == q,
                Err(e) => res == Err::<Self, ReadError>(e),
            },
    {
        let major_opcode = reader.u8()?;
        let minor_opcode = reader.u8()?;
        let name = XimString::read(reader)?;
        reader.pad();
        Ok(Extension { major_opcode, minor_opcode, name })
    }
}

impl<'a> Writable for Extension<'a> {
    open spec fn encoded(&self, before: Seq<u8>) -> Seq<u8> {
        before + extension_bytes(before.len() as int, self@)
    }

    fn write(&self, out: &mut Vec<u8>) {
        self.major_opcode.write(out);
        self.minor_opcode.write(out);
        self.name.write(out);
        write_pad(out);
        assert(out@ =~= old(out)@ + extension_bytes(old(out)@.len() as int, self@));
    }

    fn size(&self) -> (n: usize) {
        let mut v: Vec<u8> = Vec::new();
        self.write(&mut v);
        v.len()
    }
}

/// Reads attributes while more than `target` bytes remain.
pub(crate) fn read_attrs<'a>(reader: &mut Reader<'a>, target: usize) -> (res: Result<
    Vec<Attr<'a>>,
    ReadError,
>)
    requires
        old(reader).wf(),
        target <= old(reader).bytes().len(),
    ensures
        final(reader).wf(),
        final(reader).bytes() == old(reader).bytes(),
        match parse_attrs_until(
            old(reader).bytes(),
            old(reader).pos(),
            old(reader).bytes().len() - target,
        ) {
            Ok((v, q)) => res matches Ok(x) && view_attrs(x@) == v && final(reader).pos() == q,
            Err(e) => res == Err::<Vec<Attr<'a>>, ReadError>(e),
        },
{
    let ghost b = reader.bytes();
    let ghost end = b.len() - target;
    let mut attrs: Vec<Attr<'a>> = Vec::new();
    while reader.bytes_len() > target
        invariant
            reader.wf(),
            reader.bytes() == b,
            b == old(reader).bytes(),
            end == b.len() - target,
            parse_attrs_until(b, old(reader).pos(), end) == match parse_attrs_until(
                b,
                reader.pos(),
                end,
            ) {
                Ok((rest, r)) => Ok((view_attrs(attrs@) + rest, r)),
                Err(e) => Err(e),
            },
        decreases b.len() - reader.pos(),
    {
        proof {
            lemma_attr_progress(b, reader.pos());
        }
        let a = Attr::read(reader)?;
        let ghost prev = attrs@;
        attrs.push(a);
        proof {
            assert(view_attrs(attrs@) =~= view_attrs(prev).push(a@));
            match parse_attrs_until(b, reader.pos(), end) {
                Ok((rest, r)) => {
                    assert(view_attrs(prev) + (seq![a@] + rest) =~= view_attrs(attrs@) + rest);
                },
                Err(e) => {},
            }
        }
    }
    assert(view_attrs(attrs@) + Seq::<AttrView>::empty() =~= view_attrs(attrs@));
    Ok(attrs)
}

/// Writes the attributes one after the other.
pub(crate) fn write_attrs<'a>(attrs: &Vec<Attr<'a>>, out: &mut Vec<u8>)
    ensures
        final(out)@ == old(out)@ + attrs_bytes(old(out)@.len() as int, view_attrs(attrs@)),
{
    let ghost off = old(out)@.len() as int;
    let mut i: usize = 0;
    while i < attrs.len()
        invariant
            i <= attrs@.len(),
            off == old(out)@.len(),
            out@ == old(out)@ + attrs_bytes(off, view_attrs(attrs@.take(i as int))),
        decreases attrs@.len() - i,
    {
        let ghost prev = view_attrs(attrs@.take(i as int));
        proof {
            lemma_seq_bytes_push(off, prev, attrs@[i as int]@, attr_bytes_fn());
            assert(view_attrs(attrs@.take(i + 1)) =~= prev.push(attrs@[i as int]@));
        }
        attrs[i].write(out);
        i = i + 1;
        assert(out@ =~= old(out)@ + attrs_bytes(off, view_attrs(attrs@.take(i as int))));
    }
    assert(attrs@.take(attrs@.len() as int) =~= attrs@);
}

/// Reads extensions while more than `target` bytes remain.
pub(crate) fn read_extensions<'a>(reader: &mut Reader<'a>, target: usize) -> (res: Result<
    Vec<Extension<'a>>,
    ReadError,
>)
    requires
        old(reader).wf(),
        target <= old(reader).bytes().len(),
    ensures
        final(reader).wf(),
        final(reader).bytes() == old(reader).bytes(),
        match parse_extensions_until(
            old(reader).bytes(),
            old(reader).pos(),
            old(reader).bytes().len() - target,
        ) {
            Ok((v, q)) => res matches Ok(x) && view_extensions(x@) == v && final(reader).pos()
                == q,
            Err(e) => res == Err::<Vec<Extension<'a>>, ReadError>(e),
        },
{
    let ghost b = reader.bytes();
    let ghost end = b.len() - target;
    let mut exts: Vec<Extension<'a>> = Vec::new();
    while reader.bytes_len() > target
        invariant
            reader.wf(),
            reader.bytes() == b,
            b == old(reader).bytes(),
            end == b.len() - target,
            parse_extensions_until(b, old(reader).pos(), end) == match parse_extensions_until(
                b,
                reader.pos(),
                end,
            ) {
                Ok((rest, r)) => Ok((view_extensions(exts@) + rest, r)),
                Err(e) => Err(e),
            },
        decreases b.len() - reader.pos(),
    {
        proof {
            lemma_extension_progress(b, reader.pos());
        }
        let x = Extension::read(reader)?;
        let ghost prev = exts@;
        exts.push(x);
        proof {
            assert(view_extensions(exts@) =~= view_extensions(prev).push(x@));
            match parse_extensions_until(b, reader.pos(), end) {
                Ok((rest, r)) => {
                    assert(view_extensions(prev) + (seq![x@] + rest) =~= view_extensions(exts@)
                        + rest);
                },
                Err(e) => {},
            }
        }
    }
    assert(view_extensions(exts@) + Seq::<ExtensionView>::empty() =~= view_extensions(exts@));
    Ok(exts)
}

/// Writes the extensions one after the other.
pub(crate) fn write_extensions<'a>(exts: &Vec<Extension<'a>>, out: &mut Vec<u8>)
    ensures
        final(out)@ == old(out)@ + extensions_bytes(
            old(out)@.len() as int,
            view_extensions(exts@),
        ),
{
    let ghost off = old(out)@.len() as int;
    let mut i: usize = 0;
    while i < exts.len()
        invariant
            i <= exts@.len(),
            off == old(out)@.len(),
            out@ == old(out)@ + extensions_bytes(off, view_extensions(exts@.take(i as int))),
        decreases exts@.len() - i,
    {
        let ghost prev = view_extensions(exts@.take(i as int));
        proof {
            lemma_seq_bytes_push(off, prev, exts@[i as int]@, extension_bytes_fn());
            assert(view_extensions(exts@.take(i + 1)) =~= prev.push(exts@[i as int]@));
        }
        exts[i].write(out);
        i = i + 1;
        assert(out@ =~= old(out)@ + extensions_bytes(off, view_extensions(exts@.take(i as int))));
    }
    assert(exts@.take(exts@.len() as int) =~= exts@);
}

/// Reads `STR` entries while more than `target` bytes remain.
pub(crate) fn read_xim_strs<'a>(reader: &mut Reader<'a>, target: usize) -> (res: Result<
    Vec<XimStr<'a>>,
    ReadError,
>)
    requires
        old(reader).wf(),
        target <= old(reader).bytes().len(),
    ensures
        final(reader).wf(),
        final(reader).bytes() == old(reader).bytes(),
        match parse_xim_strs_until(
            old(reader).bytes(),
            old(reader).pos(),
            old(reader).bytes().len() - target,
        ) {
            Ok((v, q)) => res matches Ok(x) && view_strs(x@) == v && final(reader).pos() == q,
            Err(e) => res == Err::<Vec<XimStr<'a>>, ReadError>(e),
        },
{
    let ghost b = reader.bytes();
    let ghost end = b.len() - target;
    let mut strs: Vec<XimStr<'a>> = Vec::new();
    while reader.bytes_len() > target
        invariant
            reader.wf(),
            reader.bytes() == b,
            b == old(reader).bytes(),
            end == b.len() - target,
            parse_xim_strs_until(b, old(reader).pos(), end) == match parse_xim_strs_until(
                b,
                reader.pos(),
                end,
            ) {
                Ok((rest, r)) => Ok((view_strs(strs@) + rest, r)),
                Err(e) => Err(e),
            },
        decreases b.len() - reader.pos(),
    {
        proof {
            lemma_xim_str_progress(b, reader.pos());
        }
        let s = XimStr::read(reader)?;
        let ghost prev = strs@;
        strs.push(s);
        proof {
            assert(view_strs(strs@) =~= view_strs(prev).push(s@));
            match parse_xim_strs_until(b, reader.pos(), end) {
                Ok((rest, r)) => {
                    assert(view_strs(prev) + (seq![s@] + rest) =~= view_strs(strs@) + rest);
                },
                Err(e) => {},
            }
        }
    }
    assert(view_strs(strs@) + Seq::<Seq<u8>>::empty() =~= view_strs(strs@));
    Ok(strs)
}

} // verus!
