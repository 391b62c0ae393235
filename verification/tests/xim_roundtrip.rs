use kime::{
    read, Attr, CaretDirection, CaretStyle, ConnectReply, Extension, Feedback, Opcode, Open,
    OpenReply, PreeditCaret, PreeditState, QueryExtensionReply, ReadError, Reader, Request,
    RequestHeader, Writable, XimStr, XimString,
};
use std::marker::PhantomData;

fn roundtrip(req: Request) {
    let mut out = Vec::new();
    kime::write(req.clone(), &mut out);
    assert_eq!(out.len() % 4, 0);
    let back = read(&out).unwrap();
    assert_eq!(back, req);
}

#[test]
fn connect_reply_roundtrip() {
    roundtrip(Request::ConnectReply(ConnectReply {
        server_major_protocol_version: 1,
        server_minor_protocol_version: 0,
        _marker: PhantomData,
    }));
}

#[test]
fn open_roundtrip() {
    roundtrip(Request::Open(Open {
        name: XimStr(b"ko_KR"),
    }));
    roundtrip(Request::Open(Open { name: XimStr(b"") }));
}

#[test]
fn open_reply_roundtrip() {
    roundtrip(Request::OpenReply(OpenReply {
        input_method_id: 7,
        xim_attributes: vec![Attr {
            id: 0,
            type_: 13,
            name: XimString(b"queryInputStyle"),
        }],
        xic_attributes: vec![
            Attr {
                id: 1,
                type_: 4,
                name: XimString(b"inputStyle"),
            },
            Attr {
                id: 2,
                type_: 5,
                name: XimString(b"clientWindow"),
            },
        ],
    }));
}

#[test]
fn query_extension_reply_roundtrip() {
    let reply = QueryExtensionReply {
        input_method_id: 3,
        extensions: vec![Extension {
            major_opcode: 128,
            minor_opcode: 0,
            name: XimString(b"XIM_EXT_MOVE"),
        }],
    };
    let mut out = Vec::new();
    kime::write(Request::QueryExtensionReply(reply.clone()), &mut out);
    assert_eq!(out.len() % 4, 0);
    assert_eq!(out[0], 41);
    // The reply is only sent: as a request it is not read.
    assert_eq!(read(&out), Err(ReadError::InvalidData));
    // Its body reads back as the reply.
    let mut r = Reader::new(&out);
    assert_eq!(r.consume(4).map(|h| h.len()), Ok(4));
    assert_eq!(QueryExtensionReply::read(&mut r), Ok(reply));
    assert_eq!(r.ptr_offset(), out.len());
}

#[test]
fn write_open_bytes() {
    let mut out = Vec::new();
    kime::write(
        Request::Open(Open {
            name: XimStr(b"en_US"),
        }),
        &mut out,
    );
    assert_eq!(out, vec![30, 0, 2, 0, 5, 101, 110, 95, 85, 83, 0, 0]);
}

#[test]
fn read_unknown_opcode_is_invalid() {
    assert_eq!(read(&[99, 0, 0, 0]), Err(ReadError::InvalidData));
}

#[test]
fn read_short_input_ends_stream() {
    assert_eq!(read(&[30, 0]), Err(ReadError::EndOfStream));
    assert_eq!(read(&[]), Err(ReadError::EndOfStream));
}

#[test]
fn read_connect_big_endian_is_invalid() {
    // Only the little-endian byte order (0x6c) is accepted.
    assert_eq!(
        read(b"\x01\x00\x00\x00\x42\x00\x00\x00\x00\x00\x00\x00"),
        Err(ReadError::InvalidData)
    );
}

#[test]
fn header_write_read() {
    let h = RequestHeader {
        major_opcode: Opcode::Open,
        minor_opcode: 0,
        size: 2,
    };
    let mut out = Vec::new();
    h.write(&mut out);
    assert_eq!(out, vec![30, 0, 2, 0]);
    let mut r = Reader::new(&out);
    assert_eq!(RequestHeader::read(&mut r), Ok(h));
}

#[test]
fn opcode_codes() {
    assert_eq!(Opcode::Connect.to_u8(), 1);
    assert_eq!(Opcode::ConnectReply.to_u8(), 2);
    assert_eq!(Opcode::Open.to_u8(), 30);
    assert_eq!(Opcode::OpenReply.to_u8(), 31);
    assert_eq!(Opcode::QueryExtension.to_u8(), 40);
    assert_eq!(Opcode::QueryExtensionReply.to_u8(), 41);
    assert_eq!(Opcode::from_u8(41), None);
    assert_eq!(Opcode::from_u8(40), Some(Opcode::QueryExtension));
    assert_eq!(Opcode::from_u8(3), None);
}

#[test]
fn enum_codes_roundtrip() {
    let mut out = Vec::new();
    CaretDirection::LineEnd.write(&mut out);
    CaretStyle::Secondary.write(&mut out);
    Feedback::Highlight.write(&mut out);
    PreeditState::Disable.write(&mut out);
    let mut r = Reader::new(&out);
    assert_eq!(CaretDirection::read(&mut r), Ok(CaretDirection::LineEnd));
    assert_eq!(CaretStyle::read(&mut r), Ok(CaretStyle::Secondary));
    assert_eq!(Feedback::read(&mut r), Ok(Feedback::Highlight));
    assert_eq!(PreeditState::read(&mut r), Ok(PreeditState::Disable));
}

#[test]
fn enum_code_out_of_range_is_invalid() {
    let bytes = 99u32.to_le_bytes();
    let mut r = Reader::new(&bytes);
    assert_eq!(CaretStyle::read(&mut r), Err(ReadError::InvalidData));
}

#[test]
fn preedit_caret_roundtrip() {
    let caret = PreeditCaret {
        method_id: 1,
        context_id: 2,
        position: -5,
        direction: CaretDirection::AbsolutePosition,
        style: CaretStyle::Primary,
    };
    let mut out = Vec::new();
    caret.write(&mut out);
    assert_eq!(out.len(), 16);
    assert_eq!(caret.size(), 16);
    let mut r = Reader::new(&out);
    assert_eq!(PreeditCaret::read(&mut r), Ok(caret));
}

#[test]
fn reader_string_and_feedback() {
    let bytes = [2, 0, 0xea, 0xb0, 0x80, 0];
    let mut r = Reader::new(&bytes);
    // Two bytes announced, but a three-byte character: not UTF-8.
    assert_eq!(r.string(), Err(ReadError::Utf8));

    let bytes = [3, 0, 0xea, 0xb0, 0x80];
    let mut r = Reader::new(&bytes);
    assert_eq!(r.string(), Ok("가"));

    let bytes = [2, 0, 0, 0, 1, 0, 0, 0, 2, 0, 0, 0];
    let mut r = Reader::new(&bytes);
    assert_eq!(r.feedback(), Ok(vec![1, 2]));
    assert_eq!(r.ptr_offset(), 12);

    let bytes = [2, 0, 0, 0, 1, 0, 0, 0];
    let mut r = Reader::new(&bytes);
    assert_eq!(r.feedback(), Err(ReadError::EndOfStream));
}

#[test]
fn read_second_request_of_a_buffer() {
    let mut out = Vec::new();
    kime::write(
        Request::ConnectReply(ConnectReply {
            server_major_protocol_version: 1,
            server_minor_protocol_version: 0,
            _marker: PhantomData,
        }),
        &mut out,
    );
    kime::write(Request::Open(Open { name: XimStr(b"C") }), &mut out);
    let mut r = Reader::new(&out);
    assert!(matches!(Request::read(&mut r), Ok(Request::ConnectReply(_))));
    assert_eq!(r.ptr_offset(), 8);
    assert_eq!(
        Request::read(&mut r),
        Ok(Request::Open(Open { name: XimStr(b"C") }))
    );
}

#[test]
fn trailing_bytes_do_not_change_the_request() {
    let base: Vec<u8> = vec![30, 0, 2, 0, 5, 101, 110, 95, 85, 83, 0, 0];
    let expected = read(&base).unwrap();
    for extra in [&[][..], &[0, 0, 0, 0][..], &[1, 2, 3][..], &[0xff; 9][..]] {
        let mut longer = base.clone();
        longer.extend_from_slice(extra);
        assert_eq!(read(&longer), Ok(expected.clone()));
    }
    // Padding cut short at the end of the input still reads.
    let short: Vec<u8> = vec![30, 0, 2, 0, 5, 101, 110, 95, 85, 83];
    assert_eq!(read(&short), Ok(expected));
}
