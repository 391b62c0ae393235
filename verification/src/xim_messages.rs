//! Reading and writing the XIM message bodies.
use crate::wire::{
    u16_bytes, write_pad, ReadError, Reader, Writable,
};
use crate::xim_codec::{read_attrs, read_extensions, read_xim_strs, write_attrs, write_extensions};
use crate::xim_format::{
    attrs_bytes, connect_reply_bytes, extensions_bytes, little_endian_mark, open_bytes,
    open_reply_bytes, padded, parse_connect, parse_connect_reply, parse_open, parse_open_reply,
    parse_query_extension, parse_query_extension_reply, parse_xim_string, parse_xim_strings_n,
    query_extension_bytes, query_extension_reply_bytes, xim_str_bytes,
};
use crate::xim_types::{
    view_attrs, view_extensions, view_strings, view_strs, Connect, ConnectReply, Open, OpenReply,
    QueryExtension, QueryExtensionReply, XimStr, XimString,
};
use std::marker::PhantomData;
use vstd::prelude::*;

verus! {

impl<'a> Connect<'a> {
    /// Reads `XIM_CONNECT`. Only the little-endian byte order is accepted:
    /// any other byte-order mark is invalid data.
    pub fn read(reader: &mut Reader<'a>) -> (res: Result<Self, ReadError>)
        requires
            old(reader).wf(),
        ensures
            final(reader).wf(),
            final(reader).bytes() == old(reader).bytes(),
            match parse_connect(old(reader).bytes(), old(reader).pos()) {
                Ok((v, q)) => res matches Ok(x) && x@ == v && final(reader).pos() == q,
                Err(e) => res == Err::<Self, ReadError>(e),
            },
    {
        let endian = reader.u8()?;
        let _unused = reader.u8()?;
        if endian != 0x6c {
            return Err(ReadError::InvalidData);
        }
        let major_ver = reader.u16()?;
        let minor_ver = reader.u16()?;
        let protocol_count = reader.u16()?;
        let ghost b = reader.bytes();
        let ghost start = reader.pos();
        let mut names: Vec<XimString<'a>> = Vec::with_capacity(protocol_count as usize);
        let mut i: u16 = 0;
        while i < protocol_count
            invariant
                reader.wf(),
                reader.bytes() == b,
                b == old(reader).bytes(),
                i <= protocol_count,
                parse_connect(b, old(reader).pos()) == match parse_xim_strings_n(
                    b,
                    start,
                    protocol_count as nat,
                ) {
                    Ok((auth_names, p6)) => Ok(
                        (
                            crate::xim_types::ConnectView {
                                major: major_ver,
                                minor: minor_ver,
                                auth_names,
                            },
                            p6,
                        ),
                    ),
                    Err(e) => Err(e),
                },
                parse_xim_strings_n(b, start, protocol_count as nat) == match parse_xim_strings_n(
                    b,
                    reader.pos(),
                    (protocol_count - i) as nat,
                ) {
                    Ok((rest, r)) => Ok((view_strings(names@) + rest, r)),
                    Err(e) => Err(e),
                },
            decreases protocol_count - i,
        {
            let s = XimString::read(reader)?;
            let ghost prev = names@;
            names.push(s);
            i = i + 1;
            proof {
                assert(view_strings(names@) =~= view_strings(prev).push(s@));
                match parse_xim_strings_n(b, reader.pos(), (protocol_count - i) as nat) {
                    Ok((rest, r)) => {
                        assert(view_strings(prev) + (seq![s@] + rest) =~= view_strings(names@)
                            + rest);
                    },
                    Err(e) => {},
                }
            }
        }
        assert(view_strings(names@) + Seq::<Seq<u8>>::empty() =~= view_strings(names@));
        Ok(Connect {
            client_major_protocol_version: major_ver,
            client_minor_protocol_version: minor_ver,
            client_auth_protocol_names: names,
        })
    }
}

impl<'a> ConnectReply<'a> {
    pub fn read(reader: &mut Reader<'a>) -> (res: Result<Self, ReadError>)
        requires
            old(reader).wf(),
        ensures
            final(reader).wf(),
            final(reader).bytes() == old(reader).bytes(),
            match parse_connect_reply(old(reader).bytes(), old(reader).pos()) {
                Ok((v, q)) => res matches Ok(x) && x@ == v && final(reader).pos() == q,
                Err(e) => res == Err::<Self, ReadError>(e),
            },
    {
        let server_major_protocol_version = reader.u16()?;
        let server_minor_protocol_version = reader.u16()?;
        Ok(ConnectReply {
            server_major_protocol_version,
            server_minor_protocol_version,
            _marker: PhantomData,
        })
    }
}

impl<'a> Writable for ConnectReply<'a> {
    open spec fn encoded(&self, before: Seq<u8>) -> Seq<u8> {
        before + connect_reply_bytes(self@)
    }

    fn write(&self, out: &mut Vec<u8>) {
        self.server_major_protocol_version.write(out);
        self.server_minor_protocol_version.write(out);
        assert(out@ =~= old(out)@ + connect_reply_bytes(self@));
    }

    fn size(&self) -> (n: usize) {
        let mut v: Vec<u8> = Vec::new();
        self.write(&mut v);
        v.len()
    }
}

impl<'a> Open<'a> {
    pub fn read(reader: &mut Reader<'a>) -> (res: Result<Self, ReadError>)
        requires
            old(reader).wf(),
        ensures
            final(reader).wf(),
            final(reader).bytes() == old(reader).bytes(),
            match parse_open(old(reader).bytes(), old(reader).pos()) {
                Ok((v, q)) => res matches Ok(x) && x@ == v && final(reader).pos() == q,
                Err(e) => res == Err::<Self, ReadError>(e),
            },
    {
        let name = XimStr::read(reader)?;
        reader.pad();
        Ok(Open { name })
    }
}

impl<'a> Writable for Open<'a> {
    open spec fn encoded(&self, before: Seq<u8>) -> Seq<u8> {
        before + open_bytes(before.len() as int, self@)
    }

    fn write(&self, out: &mut Vec<u8>) {
        self.name.write(out);
        write_pad(out);
        assert(out@ =~= old(out)@ + open_bytes(old(out)@.len() as int, self@));
    }

    fn size(&self) -> (n: usize) {
        let mut v: Vec<u8> = Vec::new();
        self.write(&mut v);
        v.len()
    }
}

impl<'a> OpenReply<'a> {
    /// Reads `XIM_OPEN_REPLY`. A byte count that reaches past the end of
    /// the input ends the stream.
    pub fn read(reader: &mut Reader<'a>) -> (res: Result<Self, ReadError>)
        requires
            old(reader).wf(),
        ensures
            final(reader).wf(),
            final(reader).bytes() == old(reader).bytes(),
            match parse_open_reply(old(reader).bytes(), old(reader).pos()) {
                Ok((v, q)) => res matches Ok(x) && x@ == v && final(reader).pos() == q,
                Err(e) => res == Err::<Self, ReadError>(e),
            },
    {
        let id = reader.u16()?;
        let len = reader.u16()? as usize;
        if len > reader.bytes_len() {
            return Err(ReadError::EndOfStream);
        }
        let target = reader.bytes_len() - len;
        let xim_attributes = read_attrs(reader, target)?;

        let len = reader.u16()? as usize;
        reader.u16()?;
        if len > reader.bytes_len() {
            return Err(ReadError::EndOfStream);
        }
        let target = reader.bytes_len() - len;
        let xic_attributes = read_attrs(reader, target)?;

        Ok(OpenReply { input_method_id: id, xim_attributes, xic_attributes })
    }
}

impl<'a> Writable for OpenReply<'a> {
    open spec fn encoded(&self, before: Seq<u8>) -> Seq<u8> {
        before + open_reply_bytes(before.len() as int, self@)
    }

    fn write(&self, out: &mut Vec<u8>) {
        let ghost off = old(out)@.len() as int;
        self.input_method_id.write(out);

        0u16.write(out);
        let mark = out.len();
        write_attrs(&self.xim_attributes, out);
        let ghost a1 = attrs_bytes(off + 4, view_attrs(self.xim_attributes@));
        let len = (out.len() - mark) as u16;
        out[mark - 2] = (len % 256) as u8;
        out[mark - 1] = (len / 256) as u8;
        assert(out@ =~= old(out)@ + u16_bytes(self.input_method_id) + u16_bytes(a1.len() as u16)
            + a1);

        0u16.write(out);
        let mark = out.len();

        0u16.write(out);
        write_attrs(&self.xic_attributes, out);
        let ghost a2 = attrs_bytes(off + 8 + a1.len(), view_attrs(self.xic_attributes@));

        // the count leaves out the unused 16 bits after the mark
        let len = (out.len() - mark - 2) as u16;
        out[mark - 2] = (len % 256) as u8;
        out[mark - 1] = (len / 256) as u8;
        assert(out@ =~= old(out)@ + open_reply_bytes(off, self@));
    }

    fn size(&self) -> (n: usize) {
        let mut v: Vec<u8> = Vec::new();
        self.write(&mut v);
        v.len()
    }
}

impl<'a> QueryExtension<'a> {
    pub fn read(reader: &mut Reader<'a>) -> (res: Result<Self, ReadError>)
        requires
            old(reader).wf(),
        ensures
            final(reader).wf(),
            final(reader).bytes() == old(reader).bytes(),
            match parse_query_extension(old(reader).bytes(), old(reader).pos()) {
                Ok((v, q)) => res matches Ok(x) && x@ == v && final(reader).pos() == q,
                Err(e) => res == Err::<Self, ReadError>(e),
            },
    {
        let id = reader.u16()?;
        let len = reader.u16()? as usize;
        if len > reader.bytes_len() {
            return Err(ReadError::EndOfStream);
        }
        let target = reader.bytes_len() - len;
        let extensions = read_xim_strs(reader, target)?;
        reader.pad();
        Ok(QueryExtension { input_method_id: id, extensions })
    }
}

impl<'a> Writable for QueryExtension<'a> {
    open spec fn encoded(&self, before: Seq<u8>) -> Seq<u8> {
        before + query_extension_bytes(self@)
    }

    fn write(&self, out: &mut Vec<u8>) {
        self.input_method_id.write(out);
    }

    fn size(&self) -> (n: usize) {
        let mut v: Vec<u8> = Vec::new();
        self.write(&mut v);
        v.len()
    }
}

impl<'a> QueryExtensionReply<'a> {
    pub fn read(reader: &mut Reader<'a>) -> (res: Result<Self, ReadError>)
        requires
            old(reader).wf(),
        ensures
            final(reader).wf(),
            final(reader).bytes() == old(reader).bytes(),
            match parse_query_extension_reply(old(reader).bytes(), old(reader).pos()) {
                Ok((v, q)) => res matches Ok(x) && x@ == v && final(reader).pos() == q,
                Err(e) => res == Err::<Self, ReadError>(e),
            },
    {
        let id = reader.u16()?;
        let len = reader.u16()? as usize;
        if len > reader.bytes_len() {
            return Err(ReadError::EndOfStream);
        }
        let target = reader.bytes_len() - len;
        let extensions = read_extensions(reader, target)?;
        reader.pad();
        Ok(QueryExtensionReply { input_method_id: id, extensions })
    }
}

impl<'a> Writable for QueryExtensionReply<'a> {
    open spec fn encoded(&self, before: Seq<u8>) -> Seq<u8> {
        before + query_extension_reply_bytes(before.len() as int, self@)
    }

    fn write(&self, out: &mut Vec<u8>) {
        let ghost off = old(out)@.len() as int;
        self.input_method_id.write(out);
        0u16.write(out);
        let mark = out.len();
        write_extensions(&self.extensions, out);
        let ghost exts = extensions_bytes(off + 4, view_extensions(self.extensions@));
        let len = (out.len() - mark) as u16;
        out[mark - 2] = (len % 256) as u8;
        out[mark - 1] = (len / 256) as u8;
        assert(out@ =~= old(out)@ + u16_bytes(self.input_method_id) + u16_bytes(exts.len() as u16)
            + exts);
        write_pad(out);
        assert(out@ =~= old(out)@ + query_extension_reply_bytes(off, self@));
    }

    fn size(&self) -> (n: usize) {
        let mut v: Vec<u8> = Vec::new();
        self.write(&mut v);
        v.len()
    }
}

} // verus!
