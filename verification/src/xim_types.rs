//! The XIM messages and value types, with their mathematical views.
use std::marker::PhantomData;
use vstd::prelude::*;

verus! {

pub type WINDOW = u32;

/// A length-prefixed byte string with a 16-bit length (`STRING`).
#[derive(Eq, PartialEq, Copy, Clone, Debug)]
pub struct XimString<'a>(pub &'a [u8]);

/// A length-prefixed byte string with an 8-bit length (`STR`).
#[derive(Eq, PartialEq, Copy, Clone, Debug)]
pub struct XimStr<'a>(pub &'a [u8]);

impl<'a> View for XimString<'a> {
    type V = Seq<u8>;

    open spec fn view(&self) -> Seq<u8> {
        self.0@
    }
}

impl<'a> View for XimStr<'a> {
    type V = Seq<u8>;

    open spec fn view(&self) -> Seq<u8> {
        self.0@
    }
}

/// `XIM_CONNECT`: the client's byte order, protocol version and the
/// authentication protocols it offers.
#[derive(Eq, PartialEq, Clone, Debug)]
pub struct Connect<'a> {
    pub client_major_protocol_version: u16,
    pub client_minor_protocol_version: u16,
    pub client_auth_protocol_names: Vec<XimString<'a>>,
}

/// `XIM_CONNECT_REPLY`: the server's protocol version.
#[derive(Eq, PartialEq, Copy, Clone, Debug)]
pub struct ConnectReply<'a> {
    pub server_major_protocol_version: u16,
    pub server_minor_protocol_version: u16,
    pub _marker: PhantomData<&'a ()>,
}

/// `XIM_OPEN`: the locale the client asks for.
#[derive(Eq, PartialEq, Copy, Clone, Debug)]
pub struct Open<'a> {
    pub name: XimStr<'a>,
}

/// `XIM_OPEN_REPLY`: the new input method id and the attributes that the
/// input method and its input contexts support.
#[derive(Eq, PartialEq, Clone, Debug)]
pub struct OpenReply<'a> {
    pub input_method_id: u16,
    pub xim_attributes: Vec<Attr<'a>>,
    pub xic_attributes: Vec<Attr<'a>>,
}

/// `XIM_QUERY_EXTENSION`: the extensions the client asks about.
#[derive(Eq, PartialEq, Clone, Debug)]
pub struct QueryExtension<'a> {
    pub input_method_id: u16,
    pub extensions: Vec<XimStr<'a>>,
}

/// `XIM_QUERY_EXTENSION_REPLY`: the extensions the server supports.
#[derive(Eq, PartialEq, Clone, Debug)]
pub struct QueryExtensionReply<'a> {
    pub input_method_id: u16,
    pub extensions: Vec<Extension<'a>>,
}

/// An extension entry: its opcodes and name.
#[derive(Eq, PartialEq, Copy, Clone, Debug)]
pub struct Extension<'a> {
    pub major_opcode: u8,
    pub minor_opcode: u8,
    pub name: XimString<'a>,
}

/// An attribute description: id, value type and name.
#[derive(Eq, PartialEq, Copy, Clone, Debug)]
pub struct Attr<'a> {
    pub id: u16,
    pub type_: u16,
    pub name: XimString<'a>,
}

#[derive(Eq, PartialEq, Copy, Clone, Debug)]
pub struct Attribute<'a> {
    pub id: u16,
    pub name: XimString<'a>,
}

#[derive(Eq, PartialEq, Copy, Clone, Debug)]
pub struct EncodingInfo<'a> {
    pub name: XimString<'a>,
}

#[derive(Eq, PartialEq, Clone, Debug)]
pub struct StrConvText<'a> {
    pub type_: u16,
    pub text: XimString<'a>,
}

#[derive(Eq, PartialEq, Copy, Clone, Debug)]
pub struct TriggerKey {
    pub keysym: u32,
    pub modifier: u32,
    pub modifier_mask: u32,
}

/// `XIM_PREEDIT_CARET`.
#[derive(Eq, PartialEq, Copy, Clone, Debug)]
pub struct PreeditCaret {
    pub method_id: u16,
    pub context_id: u16,
    pub position: i32,
    pub direction: CaretDirection,
    pub style: CaretStyle,
}

/// `XIM_PREEDIT_CARET_REPLY`.
#[derive(Eq, PartialEq, Copy, Clone, Debug)]
pub struct PreeditCaretReply {
    pub method_id: u16,
    pub context_id: u16,
    pub position: i32,
}

/// `XIM_PREEDIT_DONE`.
#[derive(Eq, PartialEq, Copy, Clone, Debug)]
pub struct PreeditDone {
    pub method_id: u16,
    pub context_id: u16,
}

// ---------------------------------------------------------------------
// Views of the messages that hold byte strings
// ---------------------------------------------------------------------

pub struct AttrView {
    pub id: u16,
    pub type_: u16,
    pub name: Seq<u8>,
}

pub struct ExtensionView {
    pub major_opcode: u8,
    pub minor_opcode: u8,
    pub name: Seq<u8>,
}

pub struct ConnectView {
    pub major: u16,
    pub minor: u16,
    pub auth_names: Seq<Seq<u8>>,
}

pub struct ConnectReplyView {
    pub major: u16,
    pub minor: u16,
}

pub struct OpenView {
    pub name: Seq<u8>,
}

pub struct OpenReplyView {
    pub input_method_id: u16,
    pub xim_attributes: Seq<AttrView>,
    pub xic_attributes: Seq<AttrView>,
}

pub struct QueryExtensionView {
    pub input_method_id: u16,
    pub extensions: Seq<Seq<u8>>,
}

pub struct QueryExtensionReplyView {
    pub input_method_id: u16,
    pub extensions: Seq<ExtensionView>,
}

impl<'a> View for Attr<'a> {
    type V = AttrView;

    open spec fn view(&self) -> AttrView {
        AttrView { id: self.id, type_: self.type_, name: self.name@ }
    }
}

impl<'a> View for Extension<'a> {
    type V = ExtensionView;

    open spec fn view(&self) -> ExtensionView {
        ExtensionView {
            major_opcode: self.major_opcode,
            minor_opcode: self.minor_opcode,
            name: self.name@,
        }
    }
}

pub open spec fn view_strings<'a>(v: Seq<XimString<'a>>) -> Seq<Seq<u8>> {
    v.map_values(|s: XimString<'a>| s@)
}

pub open spec fn view_strs<'a>(v: Seq<XimStr<'a>>) -> Seq<Seq<u8>> {
    v.map_values(|s: XimStr<'a>| s@)
}

pub open spec fn view_attrs<'a>(v: Seq<Attr<'a>>) -> Seq<AttrView> {
    v.map_values(|a: Attr<'a>| a@)
}

pub open spec fn view_extensions<'a>(v: Seq<Extension<'a>>) -> Seq<ExtensionView> {
    v.map_values(|e: Extension<'a>| e@)
}

impl<'a> View for Connect<'a> {
    type V = ConnectView;

    open spec fn view(&self) -> ConnectView {
        ConnectView {
            major: self.client_major_protocol_version,
            minor: self.client_minor_protocol_version,
            auth_names: view_strings(self.client_auth_protocol_names@),
        }
    }
}

impl<'a> View for ConnectReply<'a> {
    type V = ConnectReplyView;

    open spec fn view(&self) -> ConnectReplyView {
        ConnectReplyView {
            major: self.server_major_protocol_version,
            minor: self.server_minor_protocol_version,
        }
    }
}

impl<'a> View for Open<'a> {
    type V = OpenView;

    open spec fn view(&self) -> OpenView {
        OpenView { name: self.name@ }
    }
}

impl<'a> View for OpenReply<'a> {
    type V = OpenReplyView;

    open spec fn view(&self) -> OpenReplyView {
        OpenReplyView {
            input_method_id: self.input_method_id,
            xim_attributes: view_attrs(self.xim_attributes@),
            xic_attributes: view_attrs(self.xic_attributes@),
        }
    }
}

impl<'a> View for QueryExtension<'a> {
    type V = QueryExtensionView;

    open spec fn view(&self) -> QueryExtensionView {
        QueryExtensionView {
            input_method_id: self.input_method_id,
            extensions: view_strs(self.extensions@),
        }
    }
}

impl<'a> View for QueryExtensionReply<'a> {
    type V = QueryExtensionReplyView;

    open spec fn view(&self) -> QueryExtensionReplyView {
        QueryExtensionReplyView {
            input_method_id: self.input_method_id,
            extensions: view_extensions(self.extensions@),
        }
    }
}

// ---------------------------------------------------------------------
// Enumerations carried as numbers on the wire
// ---------------------------------------------------------------------

#[derive(Eq, PartialEq, Copy, Clone, Debug)]
pub enum CaretDirection {
    ForwardChar,
    BackwardChar,
    ForwardWord,
    BackwardWord,
    CaretUp,
    CaretDown,
    NextLine,
    PreviousLine,
    LineStart,
    LineEnd,
    AbsolutePosition,
    DontChange,
}

#[derive(Eq, PartialEq, Copy, Clone, Debug)]
pub enum CaretStyle {
    Invisible,
    Primary,
    Secondary,
}

#[derive(Eq, PartialEq, Copy, Clone, Debug)]
pub enum StrConvFeedbackType {
    LeftEdge,
    RightEdge,
    TopEdge,
    BottomEdge,
    Convealed,
    Wrapped,
}

#[derive(Eq, PartialEq, Copy, Clone, Debug)]
pub enum Feedback {
    Reverse,
    Underline,
    Highlight,
    Primary,
    Secondary,
    Tertiary,
    VisibleToForward,
    VisibleToBackward,
    VisibleToCenter,
}

#[derive(Eq, PartialEq, Copy, Clone, Debug)]
pub enum HotkeyState {
    On,
    Off,
}

#[derive(Eq, PartialEq, Copy, Clone, Debug)]
pub enum PreeditState {
    Enable,
    Disable,
}

#[derive(Eq, PartialEq, Copy, Clone, Debug)]
pub enum ResetState {
    Initial,
    Preserve,
}

impl CaretDirection {
    /// The number that stands for the direction on the wire.
    pub open spec fn code(self) -> u32 {
        match self {
            CaretDirection::ForwardChar => 0,
            CaretDirection::BackwardChar => 1,
            CaretDirection::ForwardWord => 2,
            CaretDirection::BackwardWord => 3,
            CaretDirection::CaretUp => 4,
            CaretDirection::CaretDown => 5,
            CaretDirection::NextLine => 6,
            CaretDirection::PreviousLine => 7,
            CaretDirection::LineStart => 8,
            CaretDirection::LineEnd => 9,
            CaretDirection::AbsolutePosition => 10,
            CaretDirection::DontChange => 11,
        }
    }

    pub fn to_u32(self) -> (r: u32)
        ensures
            r == self.code(),
    {
        match self {
            CaretDirection::ForwardChar => 0,
            CaretDirection::BackwardChar => 1,
            CaretDirection::ForwardWord => 2,
            CaretDirection::BackwardWord => 3,
            CaretDirection::CaretUp => 4,
            CaretDirection::CaretDown => 5,
            CaretDirection::NextLine => 6,
            CaretDirection::PreviousLine => 7,
            CaretDirection::LineStart => 8,
            CaretDirection::LineEnd => 9,
            CaretDirection::AbsolutePosition => 10,
            CaretDirection::DontChange => 11,
        }
    }

    /// The direction a number stands for, if any.
    pub open spec fn from_code(v: u32) -> Option<Self> {
        match v {
            0 => Some(CaretDirection::ForwardChar),
            1 => Some(CaretDirection::BackwardChar),
            2 => Some(CaretDirection::ForwardWord),
            3 => Some(CaretDirection::BackwardWord),
            4 => Some(CaretDirection::CaretUp),
            5 => Some(CaretDirection::CaretDown),
            6 => Some(CaretDirection::NextLine),
            7 => Some(CaretDirection::PreviousLine),
            8 => Some(CaretDirection::LineStart),
            9 => Some(CaretDirection::LineEnd),
            10 => Some(CaretDirection::AbsolutePosition),
            11 => Some(CaretDirection::DontChange),
            _ => None,
        }
    }

    pub fn from_u32(v: u32) -> (r: Option<Self>)
        ensures
            r == Self::from_code(v),
    {
        match v {
            0 => Some(CaretDirection::ForwardChar),
            1 => Some(CaretDirection::BackwardChar),
            2 => Some(CaretDirection::ForwardWord),
            3 => Some(CaretDirection::BackwardWord),
            4 => Some(CaretDirection::CaretUp),
            5 => Some(CaretDirection::CaretDown),
            6 => Some(CaretDirection::NextLine),
            7 => Some(CaretDirection::PreviousLine),
            8 => Some(CaretDirection::LineStart),
            9 => Some(CaretDirection::LineEnd),
            10 => Some(CaretDirection::AbsolutePosition),
            11 => Some(CaretDirection::DontChange),
            _ => None,
        }
    }
}

impl CaretStyle {
    pub open spec fn code(self) -> u32 {
        match self {
            CaretStyle::Invisible => 0,
            CaretStyle::Primary => 1,
            CaretStyle::Secondary => 2,
        }
    }

    pub fn to_u32(self) -> (r: u32)
        ensures
            r == self.code(),
    {
        match self {
            CaretStyle::Invisible => 0,
            CaretStyle::Primary => 1,
            CaretStyle::Secondary => 2,
        }
    }

    pub open spec fn from_code(v: u32) -> Option<Self> {
        match v {
            0 => Some(CaretStyle::Invisible),
            1 => Some(CaretStyle::Primary),
            2 => Some(CaretStyle::Secondary),
            _ => None,
        }
    }

    pub fn from_u32(v: u32) -> (r: Option<Self>)
        ensures
            r == Self::from_code(v),
    {
        match v {
            0 => Some(CaretStyle::Invisible),
            1 => Some(CaretStyle::Primary),
            2 => Some(CaretStyle::Secondary),
            _ => None,
        }
    }
}

impl StrConvFeedbackType {
    pub open spec fn code(self) -> u16 {
        match self {
            StrConvFeedbackType::LeftEdge => 0x1,
            StrConvFeedbackType::RightEdge => 0x2,
            StrConvFeedbackType::TopEdge => 0x4,
            StrConvFeedbackType::BottomEdge => 0x8,
            StrConvFeedbackType::Convealed => 0x10,
            StrConvFeedbackType::Wrapped => 0x20,
        }
    }

    pub fn to_u16(self) -> (r: u16)
        ensures
            r == self.code(),
    {
        match self {
            StrConvFeedbackType::LeftEdge => 0x1,
            StrConvFeedbackType::RightEdge => 0x2,
            StrConvFeedbackType::TopEdge => 0x4,
            StrConvFeedbackType::BottomEdge => 0x8,
            StrConvFeedbackType::Convealed => 0x10,
            StrConvFeedbackType::Wrapped => 0x20,
        }
    }

    pub open spec fn from_code(v: u16) -> Option<Self> {
        match v {
            0x1 => Some(StrConvFeedbackType::LeftEdge),
            0x2 => Some(StrConvFeedbackType::RightEdge),
            0x4 => Some(StrConvFeedbackType::TopEdge),
            0x8 => Some(StrConvFeedbackType::BottomEdge),
            0x10 => Some(StrConvFeedbackType::Convealed),
            0x20 => Some(StrConvFeedbackType::Wrapped),
            _ => None,
        }
    }

    pub fn from_u16(v: u16) -> (r: Option<Self>)
        ensures
            r == Self::from_code(v),
    {
        match v {
            0x1 => Some(StrConvFeedbackType::LeftEdge),
            0x2 => Some(StrConvFeedbackType::RightEdge),
            0x4 => Some(StrConvFeedbackType::TopEdge),
            0x8 => Some(StrConvFeedbackType::BottomEdge),
            0x10 => Some(StrConvFeedbackType::Convealed),
            0x20 => Some(StrConvFeedbackType::Wrapped),
            _ => None,
        }
    }
}

impl Feedback {
    pub open spec fn code(self) -> u32 {
        match self {
            Feedback::Reverse => 0x1,
            Feedback::Underline => 0x2,
            Feedback::Highlight => 0x4,
            Feedback::Primary => 0x8,
            Feedback::Secondary => 0x10,
            Feedback::Tertiary => 0x20,
            Feedback::VisibleToForward => 0x40,
            Feedback::VisibleToBackward => 0x80,
            Feedback::VisibleToCenter => 0x100,
        }
    }

    pub fn to_u32(self) -> (r: u32)
        ensures
            r == self.code(),
    {
        match self {
            Feedback::Reverse => 0x1,
            Feedback::Underline => 0x2,
            Feedback::Highlight => 0x4,
            Feedback::Primary => 0x8,
            Feedback::Secondary => 0x10,
            Feedback::Tertiary => 0x20,
            Feedback::VisibleToForward => 0x40,
            Feedback::VisibleToBackward => 0x80,
            Feedback::VisibleToCenter => 0x100,
        }
    }

    pub open spec fn from_code(v: u32) -> Option<Self> {
        match v {
            0x1 => Some(Feedback::Reverse),
            0x2 => Some(Feedback::Underline),
            0x4 => Some(Feedback::Highlight),
            0x8 => Some(Feedback::Primary),
            0x10 => Some(Feedback::Secondary),
            0x20 => Some(Feedback::Tertiary),
            0x40 => Some(Feedback::VisibleToForward),
            0x80 => Some(Feedback::VisibleToBackward),
            0x100 => Some(Feedback::VisibleToCenter),
            _ => None,
        }
    }

    pub fn from_u32(v: u32) -> (r: Option<Self>)
        ensures
            r == Self::from_code(v),
    {
        match v {
            0x1 => Some(Feedback::Reverse),
            0x2 => Some(Feedback::Underline),
            0x4 => Some(Feedback::Highlight),
            0x8 => Some(Feedback::Primary),
            0x10 => Some(Feedback::Secondary),
            0x20 => Some(Feedback::Tertiary),
            0x40 => Some(Feedback::VisibleToForward),
            0x80 => Some(Feedback::VisibleToBackward),
            0x100 => Some(Feedback::VisibleToCenter),
            _ => None,
        }
    }
}

impl HotkeyState {
    pub open spec fn code(self) -> u32 {
        match self {
            HotkeyState::On => 0x1,
            HotkeyState::Off => 0x2,
        }
    }

    pub fn to_u32(self) -> (r: u32)
        ensures
            r == self.code(),
    {
        match self {
            HotkeyState::On => 0x1,
            HotkeyState::Off => 0x2,
        }
    }

    pub open spec fn from_code(v: u32) -> Option<Self> {
        match v {
            0x1 => Some(HotkeyState::On),
            0x2 => Some(HotkeyState::Off),
            _ => None,
        }
    }

    pub fn from_u32(v: u32) -> (r: Option<Self>)
        ensures
            r == Self::from_code(v),
    {
        match v {
            0x1 => Some(HotkeyState::On),
            0x2 => Some(HotkeyState::Off),
            _ => None,
        }
    }
}

impl PreeditState {
    pub open spec fn code(self) -> u32 {
        match self {
            PreeditState::Enable => 0x1,
            PreeditState::Disable => 0x2,
        }
    }

    pub fn to_u32(self) -> (r: u32)
        ensures
            r == self.code(),
    {
        match self {
            PreeditState::Enable => 0x1,
            PreeditState::Disable => 0x2,
        }
    }

    pub open spec fn from_code(v: u32) -> Option<Self> {
        match v {
            0x1 => Some(PreeditState::Enable),
            0x2 => Some(PreeditState::Disable),
            _ => None,
        }
    }

    pub fn from_u32(v: u32) -> (r: Option<Self>)
        ensures
            r == Self::from_code(v),
    {
        match v {
            0x1 => Some(PreeditState::Enable),
            0x2 => Some(PreeditState::Disable),
            _ => None,
        }
    }
}

impl ResetState {
    pub open spec fn code(self) -> u32 {
        match self {
            ResetState::Initial => 0x1,
            ResetState::Preserve => 0x2,
        }
    }

    pub fn to_u32(self) -> (r: u32)
        ensures
            r == self.code(),
    {
        match self {
            ResetState::Initial => 0x1,
            ResetState::Preserve => 0x2,
        }
    }

    pub open spec fn from_code(v: u32) -> Option<Self> {
        match v {
            0x1 => Some(ResetState::Initial),
            0x2 => Some(ResetState::Preserve),
            _ => None,
        }
    }

    pub fn from_u32(v: u32) -> (r: Option<Self>)
        ensures
            r == Self::from_code(v),
    {
        match v {
            0x1 => Some(ResetState::Initial),
            0x2 => Some(ResetState::Preserve),
            _ => None,
        }
    }
}

} // verus!
