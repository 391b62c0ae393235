//! kime: the XIM wire protocol and the decisions of the XIM, Wayland and
//! IBus frontends, pixel handling for the preedit window, the candidate
//! window, configuration values, the setup checks, the small tools and the
//! build plan, with their contracts proved by Verus.
use vstd::prelude::*;

pub mod bgra;
pub mod candidate;
pub mod check;
pub mod config;
pub mod ibus;
pub mod properties;
pub mod request;
pub mod text;
pub mod tools;
pub mod wayland;
pub mod wire;
pub mod xim_codec;
pub mod xim_format;
pub mod xim_frontend;
pub mod xim_laws;
pub mod xim_messages;
pub mod xim_prefix;
pub mod xim_types;
pub mod xim_values;
pub mod xtask;

pub use crate::bgra::Bgra;
pub use crate::request::{Opcode, Request, RequestHeader};
pub use crate::wire::{ReadError, Reader, Writable};
pub use crate::xim_types::{
    Attr, Attribute, CaretDirection, CaretStyle, Connect, ConnectReply, EncodingInfo, Extension,
    Feedback, HotkeyState, Open, OpenReply, PreeditCaret, PreeditCaretReply, PreeditDone,
    PreeditState, QueryExtension, QueryExtensionReply, ResetState, StrConvFeedbackType,
    StrConvText, TriggerKey, XimStr, XimString, WINDOW,
};

verus! {

/// Reads one request from the start of `bytes`.
pub fn read<'a>(bytes: &'a [u8]) -> (res: Result<Request<'a>, ReadError>)
    ensures
        match crate::request::parse_request(bytes@) {
            Ok((v, _)) => res matches Ok(x) && x@ == v,
            Err(e) => res == Err::<Request<'a>, ReadError>(e),
        },
{
    let mut reader = Reader::new(bytes);
    Request::read(&mut reader)
}

/// Appends `request` to `out`. Writing `XIM_CONNECT` is not supported.
pub fn write(request: Request, out: &mut Vec<u8>)
    requires
        !(request is Connect),
    ensures
        final(out)@ == old(out)@ + crate::request::request_bytes(request@),
{
    request.write(out);
}

} // verus!
