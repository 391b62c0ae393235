//! Reading and writing the fixed-size XIM values: numeric codes and the
//! preedit caret messages.
use crate::wire::{bits_of_i32, u16_bytes, u32_bytes, ReadError, Reader, Writable};
use crate::xim_format::{
    parse_code16, parse_code32, parse_preedit_caret, parse_preedit_caret_reply, parse_preedit_done,
    preedit_caret_bytes, preedit_caret_reply_bytes, preedit_done_bytes,
};
use crate::xim_types::{
    CaretDirection, CaretStyle, Feedback, HotkeyState, PreeditCaret, PreeditCaretReply,
    PreeditDone, PreeditState, ResetState, StrConvFeedbackType,
};
use vstd::prelude::*;

verus! {

impl CaretDirection {
    /// Reads the code; a code that names no value is invalid data.
    pub fn read(reader: &mut Reader) -> (res: Result<Self, ReadError>)
        requires
            old(reader).wf(),
        ensures
            final(reader).wf(),
            final(reader).bytes() == old(reader).bytes(),
            match parse_code32(old(reader).bytes(), old(reader).pos(), |v: u32| Self::from_code(v)) {
                Ok((v, q)) => res == Ok::<Self, ReadError>(v) && final(reader).pos() == q,
                Err(e) => res == Err::<Self, ReadError>(e),
            },
    {
        let repr = reader.u32()?;
        match Self::from_u32(repr) {
            Some(v) => Ok(v),
            None => Err(ReadError::InvalidData),
        }
    }

    /// Reading back the code of a value gives the value.
    pub proof fn lemma_code_roundtrip(self)
        ensures
            Self::from_code(self.code()) == Some(self),
    {
    }
}

impl Writable for CaretDirection {
    open spec fn encoded(&self, before: Seq<u8>) -> Seq<u8> {
        before + u32_bytes(self.code())
    }

    fn write(&self, out: &mut Vec<u8>) {
        self.to_u32().write(out);
    }

    fn size(&self) -> (n: usize) {
        4
    }
}

impl CaretStyle {
    /// Reads the code; a code that names no value is invalid data.
    pub fn read(reader: &mut Reader) -> (res: Result<Self, ReadError>)
        requires
            old(reader).wf(),
        ensures
            final(reader).wf(),
            final(reader).bytes() == old(reader).bytes(),
            match parse_code32(old(reader).bytes(), old(reader).pos(), |v: u32| Self::from_code(v)) {
                Ok((v, q)) => res == Ok::<Self, ReadError>(v) && final(reader).pos() == q,
                Err(e) => res == Err::<Self, ReadError>(e),
            },
    {
        let repr = reader.u32()?;
        match Self::from_u32(repr) {
            Some(v) => Ok(v),
            None => Err(ReadError::InvalidData),
        }
    }

    /// Reading back the code of a value gives the value.
    pub proof fn lemma_code_roundtrip(self)
        ensures
            Self::from_code(self.code()) == Some(self),
    {
    }
}

impl Writable for CaretStyle {
    open spec fn encoded(&self, before: Seq<u8>) -> Seq<u8> {
        before + u32_bytes(self.code())
    }

    fn write(&self, out: &mut Vec<u8>) {
        self.to_u32().write(out);
    }

    fn size(&self) -> (n: usize) {
        4
    }
}

impl StrConvFeedbackType {
    /// Reads the code; a code that names no value is invalid data.
    pub fn read(reader: &mut Reader) -> (res: Result<Self, ReadError>)
        requires
            old(reader).wf(),
        ensures
            final(reader).wf(),
            final(reader).bytes() == old(reader).bytes(),
            match parse_code16(old(reader).bytes(), old(reader).pos(), |v: u16| Self::from_code(v)) {
                Ok((v, q)) => res == Ok::<Self, ReadError>(v) && final(reader).pos() == q,
                Err(e) => res == Err::<Self, ReadError>(e),
            },
    {
        let repr = reader.u16()?;
        match Self::from_u16(repr) {
            Some(v) => Ok(v),
            None => Err(ReadError::InvalidData),
        }
    }

    /// Reading back the code of a value gives the value.
    pub proof fn lemma_code_roundtrip(self)
        ensures
            Self::from_code(self.code()) == Some(self),
    {
    }
}

impl Writable for StrConvFeedbackType {
    open spec fn encoded(&self, before: Seq<u8>) -> Seq<u8> {
        before + u16_bytes(self.code())
    }

    fn write(&self, out: &mut Vec<u8>) {
        self.to_u16().write(out);
    }

    fn size(&self) -> (n: usize) {
        2
    }
}

impl Feedback {
    /// Reads the code; a code that names no value is invalid data.
    pub fn read(reader: &mut Reader) -> (res: Result<Self, ReadError>)
        requires
            old(reader).wf(),
        ensures
            final(reader).wf(),
            final(reader).bytes() == old(reader).bytes(),
            match parse_code32(old(reader).bytes(), old(reader).pos(), |v: u32| Self::from_code(v)) {
                Ok((v, q)) => res == Ok::<Self, ReadError>(v) && final(reader).pos() == q,
                Err(e) => res == Err::<Self, ReadError>(e),
            },
    {
        let repr = reader.u32()?;
        match Self::from_u32(repr) {
            Some(v) => Ok(v),
            None => Err(ReadError::InvalidData),
        }
    }

    /// Reading back the code of a value gives the value.
    pub proof fn lemma_code_roundtrip(self)
        ensures
            Self::from_code(self.code()) == Some(self),
    {
    }
}

impl Writable for Feedback {
    open spec fn encoded(&self, before: Seq<u8>) -> Seq<u8> {
        before + u32_bytes(self.code())
    }

    fn write(&self, out: &mut Vec<u8>) {
        self.to_u32().write(out);
    }

    fn size(&self) -> (n: usize) {
        4
    }
}

impl PreeditState {
    /// Reads the code; a code that names no value is invalid data.
    pub fn read(reader: &mut Reader) -> (res: Result<Self, ReadError>)
        requires
            old(reader).wf(),
        ensures
            final(reader).wf(),
            final(reader).bytes() == old(reader).bytes(),
            match parse_code32(old(reader).bytes(), old(reader).pos(), |v: u32| Self::from_code(v)) {
                Ok((v, q)) => res == Ok::<Self, ReadError>(v) && final(reader).pos() == q,
                Err(e) => res == Err::<Self, ReadError>(e),
            },
    {
        let repr = reader.u32()?;
        match Self::from_u32(repr) {
            Some(v) => Ok(v),
            None => Err(ReadError::InvalidData),
        }
    }

    /// Reading back the code of a value gives the value.
    pub proof fn lemma_code_roundtrip(self)
        ensures
            Self::from_code(self.code()) == Some(self),
    {
    }
}

impl Writable for PreeditState {
    open spec fn encoded(&self, before: Seq<u8>) -> Seq<u8> {
        before + u32_bytes(self.code())
    }

    fn write(&self, out: &mut Vec<u8>) {
        self.to_u32().write(out);
    }

    fn size(&self) -> (n: usize) {
        4
    }
}

impl HotkeyState {
    /// Reads the code; a code that names no value is invalid data.
    pub fn read(reader: &mut Reader) -> (res: Result<Self, ReadError>)
        requires
            old(reader).wf(),
        ensures
            final(reader).wf(),
            final(reader).bytes() == old(reader).bytes(),
            match parse_code32(old(reader).bytes(), old(reader).pos(), |v: u32| Self::from_code(v)) {
                Ok((v, q)) => res == Ok::<Self, ReadError>(v) && final(reader).pos() == q,
                Err(e) => res == Err::<Self, ReadError>(e),
            },
    {
        let repr = reader.u32()?;
        match Self::from_u32(repr) {
            Some(v) => Ok(v),
            None => Err(ReadError::InvalidData),
        }
    }

    /// Reading back the code of a value gives the value.
    pub proof fn lemma_code_roundtrip(self)
        ensures
            Self::from_code(self.code()) == Some(self),
    {
    }
}

impl Writable for HotkeyState {
    open spec fn encoded(&self, before: Seq<u8>) -> Seq<u8> {
        before + u32_bytes(self.code())
    }

    fn write(&self, out: &mut Vec<u8>) {
        self.to_u32().write(out);
    }

    fn size(&self) -> (n: usize) {
        4
    }
}

impl ResetState {
    /// Reads the code; a code that names no value is invalid data.
    pub fn read(reader: &mut Reader) -> (res: Result<Self, ReadError>)
        requires
            old(reader).wf(),
        ensures
            final(reader).wf(),
            final(reader).bytes() == old(reader).bytes(),
            match parse_code32(old(reader).bytes(), old(reader).pos(), |v: u32| Self::from_code(v)) {
                Ok((v, q)) => res == Ok::<Self, ReadError>(v) && final(reader).pos() == q,
                Err(e) => res == Err::<Self, ReadError>(e),
            },
    {
        let repr = reader.u32()?;
        match Self::from_u32(repr) {
            Some(v) => Ok(v),
            None => Err(ReadError::InvalidData),
        }
    }

    /// Reading back the code of a value gives the value.
    pub proof fn lemma_code_roundtrip(self)
        ensures
            Self::from_code(self.code()) == Some(self),
    {
    }
}

impl Writable for ResetState {
    open spec fn encoded(&self, before: Seq<u8>) -> Seq<u8> {
        before + u32_bytes(self.code())
    }

    fn write(&self, out: &mut Vec<u8>) {
        self.to_u32().write(out);
    }

    fn size(&self) -> (n: usize) {
        4
    }
}

impl PreeditCaret {
    pub fn read(reader: &mut Reader) -> (res: Result<Self, ReadError>)
        requires
            old(reader).wf(),
        ensures
            final(reader).wf(),
            final(reader).bytes() == old(reader).bytes(),
            match parse_preedit_caret(old(reader).bytes(), old(reader).pos()) {
                Ok((v, q)) => res == Ok::<Self, ReadError>(v) && final(reader).pos() == q,
                Err(e) => res == Err::<Self, ReadError>(e),
            },
    {
        let method_id = reader.u16()?;
        let context_id = reader.u16()?;
        let position = reader.i32()?;
        let direction = CaretDirection::read(reader)?;
        let style = CaretStyle::read(reader)?;
        Ok(PreeditCaret { method_id, context_id, position, direction, style })
    }
}

impl Writable for PreeditCaret {
    open spec fn encoded(&self, before: Seq<u8>) -> Seq<u8> {
        before + preedit_caret_bytes(*self)
    }

    fn write(&self, out: &mut Vec<u8>) {
        self.method_id.write(out);
        self.context_id.write(out);
        self.position.write(out);
        self.direction.write(out);
        self.style.write(out);
        assert(out@ =~= old(out)@ + preedit_caret_bytes(*self));
    }

    fn size(&self) -> (n: usize) {
        16
    }
}

impl PreeditCaretReply {
    pub fn read(reader: &mut Reader) -> (res: Result<Self, ReadError>)
        requires
            old(reader).wf(),
        ensures
            final(reader).wf(),
            final(reader).bytes() == old(reader).bytes(),
            match parse_preedit_caret_reply(old(reader).bytes(), old(reader).pos()) {
                Ok((v, q)) => res == Ok::<Self, ReadError>(v) && final(reader).pos() == q,
                Err(e) => res == Err::<Self, ReadError>(e),
            },
    {
        let method_id = reader.u16()?;
        let context_id = reader.u16()?;
        let position = reader.i32()?;
        Ok(PreeditCaretReply { method_id, context_id, position })
    }
}

impl Writable for PreeditCaretReply {
    open spec fn encoded(&self, before: Seq<u8>) -> Seq<u8> {
        before + preedit_caret_reply_bytes(*self)
    }

    fn write(&self, out: &mut Vec<u8>) {
        self.method_id.write(out);
        self.context_id.write(out);
        self.position.write(out);
        assert(out@ =~= old(out)@ + preedit_caret_reply_bytes(*self));
    }

    fn size(&self) -> (n: usize) {
        8
    }
}

impl PreeditDone {
    pub fn read(reader: &mut Reader) -> (res: Result<Self, ReadError>)
        requires
            old(reader).wf(),
        ensures
            final(reader).wf(),
            final(reader).bytes() == old(reader).bytes(),
            match parse_preedit_done(old(reader).bytes(), old(reader).pos()) {
                Ok((v, q)) => res == Ok::<Self, ReadError>(v) && final(reader).pos() == q,
                Err(e) => res == Err::<Self, ReadError>(e),
            },
    {
        let method_id = reader.u16()?;
        let context_id = reader.u16()?;
        Ok(PreeditDone { method_id, context_id })
    }
}

impl Writable for PreeditDone {
    open spec fn encoded(&self, before: Seq<u8>) -> Seq<u8> {
        before + preedit_done_bytes(*self)
    }

    fn write(&self, out: &mut Vec<u8>) {
        self.method_id.write(out);
        self.context_id.write(out);
        assert(out@ =~= old(out)@ + preedit_done_bytes(*self));
    }

    fn size(&self) -> (n: usize) {
        4
    }
}

} // verus!
