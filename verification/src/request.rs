//! Whole XIM requests: the four-byte header, the message it announces, and
//! the crate's entry points `read` and `write`.
use crate::wire::{parse_u16, parse_u8, u16_bytes, Parsed, ReadError, Reader, Writable};
use crate::xim_format::{
    connect_reply_bytes, open_bytes, open_reply_bytes, parse_connect, parse_connect_reply,
    parse_open, parse_open_reply, parse_query_extension, parse_query_extension_reply,
    query_extension_bytes, query_extension_reply_bytes,
};
use crate::xim_types::{
    Connect, ConnectReply, ConnectReplyView, ConnectView, Open, OpenReply, OpenReplyView,
    OpenView, QueryExtension, QueryExtensionReply, QueryExtensionReplyView, QueryExtensionView,
};
use vstd::prelude::*;

verus! {

/// The major opcodes of the supported requests.
#[derive(Eq, PartialEq, Copy, Clone, Debug)]
pub enum Opcode {
    Connect,
    ConnectReply,
    Open,
    OpenReply,
    QueryExtension,
    QueryExtensionReply,
}

impl Opcode {
    pub open spec fn code(self) -> u8 {
        match self {
            Opcode::Connect => 1,
            Opcode::ConnectReply => 2,
            Opcode::Open => 30,
            Opcode::OpenReply => 31,
            Opcode::QueryExtension => 40,
            Opcode::QueryExtensionReply => 41,
        }
    }

    pub open spec fn from_code(v: u8) -> Option<Self> {
        match v {
            1 => Some(Opcode::Connect),
            2 => Some(Opcode::ConnectReply),
            30 => Some(Opcode::Open),
            31 => Some(Opcode::OpenReply),
            40 => Some(Opcode::QueryExtension),
            _ => None,
        }
    }

    pub fn to_u8(self) -> (r: u8)
        ensures
            r == self.code(),
    {
        match self {
            Opcode::Connect => 1,
            Opcode::ConnectReply => 2,
            Opcode::Open => 30,
            Opcode::OpenReply => 31,
            Opcode::QueryExtension => 40,
            Opcode::QueryExtensionReply => 41,
        }
    }

    pub fn from_u8(v: u8) -> (r: Option<Self>)
        ensures
            r == Self::from_code(v),
    {
        match v {
            1 => Some(Opcode::Connect),
            2 => Some(Opcode::ConnectReply),
            30 => Some(Opcode::Open),
            31 => Some(Opcode::OpenReply),
            40 => Some(Opcode::QueryExtension),
            _ => None,
        }
    }

    /// Reads the opcode byte; an unknown opcode is invalid data. The reply
    /// to a query for extensions (41) is only ever sent, so it is not read.
    pub fn read(reader: &mut Reader) -> (res: Result<Self, ReadError>)
        requires
            old(reader).wf(),
        ensures
            final(reader).wf(),
            final(reader).bytes() == old(reader).bytes(),
            match parse_opcode(old(reader).bytes(), old(reader).pos()) {
                Ok((v, q)) => res == Ok::<Self, ReadError>(v) && final(reader).pos() == q,
                Err(e) => res == Err::<Self, ReadError>(e),
            },
    {
        let v = reader.u8()?;
        match Opcode::from_u8(v) {
            Some(op) => Ok(op),
            None => Err(ReadError::InvalidData),
        }
    }

    /// Reading back the code of an opcode that is read gives the opcode.
    pub proof fn lemma_code_roundtrip(self)
        requires
            self != Opcode::QueryExtensionReply,
        ensures
            Self::from_code(self.code()) == Some(self),
    {
    }
}

impl Writable for Opcode {
    open spec fn encoded(&self, before: Seq<u8>) -> Seq<u8> {
        before.push(self.code())
    }

    fn write(&self, out: &mut Vec<u8>) {
        out.push(self.to_u8());
    }

    fn size(&self) -> (n: usize) {
        1
    }
}

/// The header in front of every request: major and minor opcode and the
/// length of the rest in four-byte units.
#[derive(Eq, PartialEq, Copy, Clone, Debug)]
pub struct RequestHeader {
    pub major_opcode: Opcode,
    pub minor_opcode: u8,
    pub size: u16,
}

pub open spec fn parse_opcode(b: Seq<u8>, p: int) -> Parsed<Opcode> {
    match parse_u8(b, p) {
        Ok((v, q)) => match Opcode::from_code(v) {
            Some(op) => Ok((op, q)),
            None => Err(ReadError::InvalidData),
        },
        Err(e) => Err(e),
    }
}

pub open spec fn parse_header(b: Seq<u8>, p: int) -> Parsed<RequestHeader> {
    match parse_opcode(b, p) {
        Ok((major_opcode, p1)) => match parse_u8(b, p1) {
            Ok((minor_opcode, p2)) => match parse_u16(b, p2) {
                Ok((size, p3)) => Ok((RequestHeader { major_opcode, minor_opcode, size }, p3)),
                Err(e) => Err(e),
            },
            Err(e) => Err(e),
        },
        Err(e) => Err(e),
    }
}

pub open spec fn header_bytes(h: RequestHeader) -> Seq<u8> {
    seq![h.major_opcode.code(), h.minor_opcode] + u16_bytes(h.size)
}

impl RequestHeader {
    pub fn read(reader: &mut Reader) -> (res: Result<Self, ReadError>)
        requires
            old(reader).wf(),
        ensures
            final(reader).wf(),
            final(reader).bytes() == old(reader).bytes(),
            match parse_header(old(reader).bytes(), old(reader).pos()) {
                Ok((v, q)) => res == Ok::<Self, ReadError>(v) && final(reader).pos() == q,
                Err(e) => res == Err::<Self, ReadError>(e),
            },
    {
        let major_opcode = Opcode::read(reader)?;
        let minor_opcode = reader.u8()?;
        let size = reader.u16()?;
        Ok(RequestHeader { major_opcode, minor_opcode, size })
    }
}

impl Writable for RequestHeader {
    open spec fn encoded(&self, before: Seq<u8>) -> Seq<u8> {
        before + header_bytes(*self)
    }

    fn write(&self, out: &mut Vec<u8>) {
        self.major_opcode.write(out);
        self.minor_opcode.write(out);
        self.size.write(out);
        assert(out@ =~= old(out)@ + header_bytes(*self));
    }

    fn size(&self) -> (n: usize) {
        4
    }
}

/// A request of one of the supported kinds.
#[derive(Eq, PartialEq, Clone, Debug)]
pub enum Request<'a> {
    Connect(Connect<'a>),
    ConnectReply(ConnectReply<'a>),
    Open(Open<'a>),
    OpenReply(OpenReply<'a>),
    QueryExtension(QueryExtension<'a>),
    QueryExtensionReply(QueryExtensionReply<'a>),
}

pub enum RequestView {
    Connect(ConnectView),
    ConnectReply(ConnectReplyView),
    Open(OpenView),
    OpenReply(OpenReplyView),
    QueryExtension(QueryExtensionView),
    QueryExtensionReply(QueryExtensionReplyView),
}

impl<'a> View for Request<'a> {
    type V = RequestView;

    open spec fn view(&self) -> RequestView {
        match self {
            Request::Connect(r) => RequestView::Connect(r@),
            Request::ConnectReply(r) => RequestView::ConnectReply(r@),
            Request::Open(r) => RequestView::Open(r@),
            Request::OpenReply(r) => RequestView::OpenReply(r@),
            Request::QueryExtension(r) => RequestView::QueryExtension(r@),
            Request::QueryExtensionReply(r) => RequestView::QueryExtensionReply(r@),
        }
    }
}

pub open spec fn request_opcode(r: RequestView) -> Opcode {
    match r {
        RequestView::Connect(_) => Opcode::Connect,
        RequestView::ConnectReply(_) => Opcode::ConnectReply,
        RequestView::Open(_) => Opcode::Open,
        RequestView::OpenReply(_) => Opcode::OpenReply,
        RequestView::QueryExtension(_) => Opcode::QueryExtension,
        RequestView::QueryExtensionReply(_) => Opcode::QueryExtensionReply,
    }
}

/// The message that follows the header, written at offset `off`.
/// Writing `XIM_CONNECT` is not supported; it has no content here.
pub open spec fn content_bytes(off: int, r: RequestView) -> Seq<u8> {
    match r {
        RequestView::Connect(_) => Seq::empty(),
        RequestView::ConnectReply(v) => connect_reply_bytes(v),
        RequestView::Open(v) => open_bytes(off, v),
        RequestView::OpenReply(v) => open_reply_bytes(off, v),
        RequestView::QueryExtension(v) => query_extension_bytes(v),
        RequestView::QueryExtensionReply(v) => query_extension_reply_bytes(off, v),
    }
}

/// A whole request on the wire: the header with minor opcode 0 and the
/// content length in four-byte units (modulo 2^16), then the content.
/// Padding inside the content is aligned to the start of the request.
pub open spec fn request_bytes(r: RequestView) -> Seq<u8> {
    let content = content_bytes(4, r);
    header_bytes(
        RequestHeader {
            major_opcode: request_opcode(r),
            minor_opcode: 0,
            size: (content.len() / 4) as u16,
        },
    ) + content
}

/// What reading a request from the start of `b` yields.
/// A request read from the start of `b`.
pub open spec fn parse_request(b: Seq<u8>) -> Parsed<RequestView> {
    parse_request_at(b, 0)
}

/// A request whose header starts at `start`.
pub open spec fn parse_request_at(b: Seq<u8>, start: int) -> Parsed<RequestView> {
    match parse_header(b, start) {
        Ok((h, p)) => match h.major_opcode {
            Opcode::Connect => match parse_connect(b, p) {
                Ok((v, q)) => Ok((RequestView::Connect(v), q)),
                Err(e) => Err(e),
            },
            Opcode::ConnectReply => match parse_connect_reply(b, p) {
                Ok((v, q)) => Ok((RequestView::ConnectReply(v), q)),
                Err(e) => Err(e),
            },
            Opcode::Open => match parse_open(b, p) {
                Ok((v, q)) => Ok((RequestView::Open(v), q)),
                Err(e) => Err(e),
            },
            Opcode::OpenReply => match parse_open_reply(b, p) {
                Ok((v, q)) => Ok((RequestView::OpenReply(v), q)),
                Err(e) => Err(e),
            },
            Opcode::QueryExtension => match parse_query_extension(b, p) {
                Ok((v, q)) => Ok((RequestView::QueryExtension(v), q)),
                Err(e) => Err(e),
            },
            Opcode::QueryExtensionReply => match parse_query_extension_reply(b, p) {
                Ok((v, q)) => Ok((RequestView::QueryExtensionReply(v), q)),
                Err(e) => Err(e),
            },
        },
        Err(e) => Err(e),
    }
}

impl<'a> Request<'a> {
    /// The opcode that names this kind of request.
    pub fn opcode(&self) -> (op: Opcode)
        ensures
            op == request_opcode(self@),
    {
        match self {
            Request::Connect(_) => Opcode::Connect,
            Request::ConnectReply(_) => Opcode::ConnectReply,
            Request::Open(_) => Opcode::Open,
            Request::OpenReply(_) => Opcode::OpenReply,
            Request::QueryExtension(_) => Opcode::QueryExtension,
            Request::QueryExtensionReply(_) => Opcode::QueryExtensionReply,
        }
    }

    /// Length of the content that follows the header. Writing
    /// `XIM_CONNECT` is not supported, so it has no content size.
    pub fn content_size(&self) -> (n: usize)
        requires
            !(self is Connect),
        ensures
            n == content_bytes(4, self@).len(),
    {
        proof {
            crate::xim_laws::lemma_content_shift4(0, self@);
        }
        match self {
            Request::Connect(_) => 0,
            Request::ConnectReply(r) => r.size(),
            Request::Open(r) => r.size(),
            Request::OpenReply(r) => r.size(),
            Request::QueryExtension(r) => r.size(),
            Request::QueryExtensionReply(r) => r.size(),
        }
    }

    /// Reads a request: the header, then the message its opcode names.
    /// The header's minor opcode and size are not checked.
    pub fn read(reader: &mut Reader<'a>) -> (res: Result<Self, ReadError>)
        requires
            old(reader).wf(),
        ensures
            final(reader).wf(),
            final(reader).bytes() == old(reader).bytes(),
            match parse_request_at(old(reader).bytes(), old(reader).pos()) {
                Ok((v, q)) => res matches Ok(x) && x@ == v && final(reader).pos() == q,
                Err(e) => res == Err::<Self, ReadError>(e),
            },
    {
        let header = RequestHeader::read(reader)?;
        match header.major_opcode {
            Opcode::Connect => Ok(Request::Connect(Connect::read(reader)?)),
            Opcode::ConnectReply => Ok(Request::ConnectReply(ConnectReply::read(reader)?)),
            Opcode::Open => Ok(Request::Open(Open::read(reader)?)),
            Opcode::OpenReply => Ok(Request::OpenReply(OpenReply::read(reader)?)),
            Opcode::QueryExtension => Ok(Request::QueryExtension(QueryExtension::read(reader)?)),
            Opcode::QueryExtensionReply => Ok(
                Request::QueryExtensionReply(QueryExtensionReply::read(reader)?),
            ),
        }
    }

    /// Writes the request: header, then content. Writing `XIM_CONNECT` is
    /// not supported.
    pub fn write(&self, out: &mut Vec<u8>)
        requires
            !(self is Connect),
        ensures
            final(out)@ == old(out)@ + request_bytes(self@),
    {
        let mut buf: Vec<u8> = Vec::new();
        buf.push(0u8);
        buf.push(0u8);
        buf.push(0u8);
        buf.push(0u8);
        match self {
            Request::Connect(_) => {},
            Request::ConnectReply(r) => r.write(&mut buf),
            Request::Open(r) => r.write(&mut buf),
            Request::OpenReply(r) => r.write(&mut buf),
            Request::QueryExtension(r) => r.write(&mut buf),
            Request::QueryExtensionReply(r) => r.write(&mut buf),
        }
        let ghost content = content_bytes(4, self@);
        assert(buf@ =~= seq![0u8, 0u8, 0u8, 0u8] + content);
        let size = ((buf.len() - 4) / 4) as u16;
        buf[0] = self.opcode().to_u8();
        buf[1] = 0u8;
        buf[2] = (size % 256) as u8;
        buf[3] = (size / 256) as u8;
        assert(buf@ =~= request_bytes(self@));
        out.append(&mut buf);
    }
}

} // verus!
