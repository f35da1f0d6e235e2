//! The message bridge: WebSocket messages as the client-facing socket holds
//! them, as the upstream tunnel holds them, and the mapping between the two.
//!
//! The two sides differ in one thing only. The client side carries a close
//! code as its number; the upstream side carries it by name. The bridge knows
//! the thirteen standard codes and no others: a message with any other code
//! cannot cross it.

use vstd::prelude::*;

verus! {

pub const NORMAL: u16 = 1000;

pub const AWAY: u16 = 1001;

pub const PROTOCOL: u16 = 1002;

pub const UNSUPPORTED: u16 = 1003;

pub const STATUS: u16 = 1005;

pub const ABNORMAL: u16 = 1006;

pub const INVALID: u16 = 1007;

pub const POLICY: u16 = 1008;

pub const SIZE: u16 = 1009;

pub const EXTENSION: u16 = 1010;

pub const ERROR: u16 = 1011;

pub const RESTART: u16 = 1012;

pub const AGAIN: u16 = 1013;

/// A close code as the upstream side names it.
#[derive(Debug, Clone, Copy, PartialEq, Eq, Structural)]
pub enum TungsteniteCloseCode {
    Normal,
    Away,
    Protocol,
    Unsupported,
    Status,
    Abnormal,
    Invalid,
    Policy,
    Size,
    Extension,
    Error,
    Restart,
    Again,
    /// Any code that has none of the names above, with its number.
    Other(u16),
}

/// The number of a named close code; none for a code without a name.
pub open spec fn axum_code(code: TungsteniteCloseCode) -> Option<u16> {
    match code {
        TungsteniteCloseCode::Normal => Some(NORMAL),
        TungsteniteCloseCode::Away => Some(AWAY),
        TungsteniteCloseCode::Protocol => Some(PROTOCOL),
        TungsteniteCloseCode::Unsupported => Some(UNSUPPORTED),
        TungsteniteCloseCode::Status => Some(STATUS),
        TungsteniteCloseCode::Abnormal => Some(ABNORMAL),
        TungsteniteCloseCode::Invalid => Some(INVALID),
        TungsteniteCloseCode::Policy => Some(POLICY),
        TungsteniteCloseCode::Size => Some(SIZE),
        TungsteniteCloseCode::Extension => Some(EXTENSION),
        TungsteniteCloseCode::Error => Some(ERROR),
        TungsteniteCloseCode::Restart => Some(RESTART),
        TungsteniteCloseCode::Again => Some(AGAIN),
        TungsteniteCloseCode::Other(_) => None,
    }
}

/// The name of a close code, by its number; none for a number outside the
/// table.
pub open spec fn tungstenite_code(code: u16) -> Option<TungsteniteCloseCode> {
    if code == NORMAL {
        Some(TungsteniteCloseCode::Normal)
    } else if code == AWAY {
        Some(TungsteniteCloseCode::Away)
    } else if code == PROTOCOL {
        Some(TungsteniteCloseCode::Protocol)
    } else if code == UNSUPPORTED {
        Some(TungsteniteCloseCode::Unsupported)
    } else if code == STATUS {
        Some(TungsteniteCloseCode::Status)
    } else if code == ABNORMAL {
        Some(TungsteniteCloseCode::Abnormal)
    } else if code == INVALID {
        Some(TungsteniteCloseCode::Invalid)
    } else if code == POLICY {
        Some(TungsteniteCloseCode::Policy)
    } else if code == SIZE {
        Some(TungsteniteCloseCode::Size)
    } else if code == EXTENSION {
        Some(TungsteniteCloseCode::Extension)
    } else if code == ERROR {
        Some(TungsteniteCloseCode::Error)
    } else if code == RESTART {
        Some(TungsteniteCloseCode::Restart)
    } else if code == AGAIN {
        Some(TungsteniteCloseCode::Again)
    } else {
        None
    }
}

/// Whether the code has one of the thirteen names.
pub fn is_named_close_code(code: TungsteniteCloseCode) -> (r: bool)
    ensures
        r == axum_code(code) is Some,
{
    match code {
        TungsteniteCloseCode::Other(_) => false,
        _ => true,
    }
}

/// Whether the number is one of the thirteen in the table.
pub fn is_standard_close_code(code: u16) -> (r: bool)
    ensures
        r == tungstenite_code(code) is Some,
{
    (1000 <= code && code <= 1003) || (1005 <= code && code <= 1013)
}

/// The number of a named close code.
pub fn tungstenite_to_axum_close_code(close_code: TungsteniteCloseCode) -> (r: u16)
    requires
        axum_code(close_code) is Some,
    ensures
        Some(r) == axum_code(close_code),
{
    match close_code {
        TungsteniteCloseCode::Normal => NORMAL,
        TungsteniteCloseCode::Away => AWAY,
        TungsteniteCloseCode::Protocol => PROTOCOL,
        TungsteniteCloseCode::Unsupported => UNSUPPORTED,
        TungsteniteCloseCode::Status => STATUS,
        TungsteniteCloseCode::Abnormal => ABNORMAL,
        TungsteniteCloseCode::Invalid => INVALID,
        TungsteniteCloseCode::Policy => POLICY,
        TungsteniteCloseCode::Size => SIZE,
        TungsteniteCloseCode::Extension => EXTENSION,
        TungsteniteCloseCode::Error => ERROR,
        TungsteniteCloseCode::Restart => RESTART,
        _ => AGAIN,
    }
}

/// The name of a close code in the table.
pub fn axum_to_tungstenite_close_code(close_code: u16) -> (r: TungsteniteCloseCode)
    requires
        tungstenite_code(close_code) is Some,
    ensures
        Some(r) == tungstenite_code(close_code),
{
    match close_code {
        1000 => TungsteniteCloseCode::Normal,
        1001 => TungsteniteCloseCode::Away,
        1002 => TungsteniteCloseCode::Protocol,
        1003 => TungsteniteCloseCode::Unsupported,
        1005 => TungsteniteCloseCode::Status,
        1006 => TungsteniteCloseCode::Abnormal,
        1007 => TungsteniteCloseCode::Invalid,
        1008 => TungsteniteCloseCode::Policy,
        1009 => TungsteniteCloseCode::Size,
        1010 => TungsteniteCloseCode::Extension,
        1011 => TungsteniteCloseCode::Error,
        1012 => TungsteniteCloseCode::Restart,
        _ => TungsteniteCloseCode::Again,
    }
}

/// What a close frame holds on either side: a code, in the side's own form,
/// and a reason.
pub struct CloseFrameView<Code> {
    pub code: Code,
    pub reason: Seq<char>,
}

/// A close frame of the client side.
#[derive(Debug)]
pub struct AxumCloseFrame {
    pub code: u16,
    pub reason: String,
}

impl DeepView for AxumCloseFrame {
    type V = CloseFrameView<u16>;

    open spec fn deep_view(&self) -> CloseFrameView<u16> {
        CloseFrameView { code: self.code, reason: self.reason@ }
    }
}

/// A close frame of the upstream side.
#[derive(Debug)]
pub struct TungsteniteCloseFrame {
    pub code: TungsteniteCloseCode,
    pub reason: String,
}

impl DeepView for TungsteniteCloseFrame {
    type V = CloseFrameView<TungsteniteCloseCode>;

    open spec fn deep_view(&self) -> CloseFrameView<TungsteniteCloseCode> {
        CloseFrameView { code: self.code, reason: self.reason@ }
    }
}

/// A message of the client side.
#[derive(Debug)]
pub enum AxumMessage {
    Text(String),
    Binary(Vec<u8>),
    Ping(Vec<u8>),
    Pong(Vec<u8>),
    Close(Option<AxumCloseFrame>),
}

pub enum AxumMessageView {
    Text(Seq<char>),
    Binary(Seq<u8>),
    Ping(Seq<u8>),
    Pong(Seq<u8>),
    Close(Option<CloseFrameView<u16>>),
}

impl DeepView for AxumMessage {
    type V = AxumMessageView;

    open spec fn deep_view(&self) -> AxumMessageView {
        match self {
            AxumMessage::Text(text) => AxumMessageView::Text(text@),
            AxumMessage::Binary(bytes) => AxumMessageView::Binary(bytes@),
            AxumMessage::Ping(bytes) => AxumMessageView::Ping(bytes@),
            AxumMessage::Pong(bytes) => AxumMessageView::Pong(bytes@),
            AxumMessage::Close(frame) => AxumMessageView::Close(frame.deep_view()),
        }
    }
}

/// A message of the upstream side.
#[derive(Debug)]
pub enum TungsteniteMessage {
    Text(String),
    Binary(Vec<u8>),
    Ping(Vec<u8>),
    Pong(Vec<u8>),
    Close(Option<TungsteniteCloseFrame>),
    /// A raw frame. Reading a socket never yields one.
    Frame,
}

pub enum TungsteniteMessageView {
    Text(Seq<char>),
    Binary(Seq<u8>),
    Ping(Seq<u8>),
    Pong(Seq<u8>),
    Close(Option<CloseFrameView<TungsteniteCloseCode>>),
    Frame,
}

impl DeepView for TungsteniteMessage {
    type V = TungsteniteMessageView;

    open spec fn deep_view(&self) -> TungsteniteMessageView {
        match self {
            TungsteniteMessage::Text(text) => TungsteniteMessageView::Text(text@),
            TungsteniteMessage::Binary(bytes) => TungsteniteMessageView::Binary(bytes@),
            TungsteniteMessage::Ping(bytes) => TungsteniteMessageView::Ping(bytes@),
            TungsteniteMessage::Pong(bytes) => TungsteniteMessageView::Pong(bytes@),
            TungsteniteMessage::Close(frame) => TungsteniteMessageView::Close(frame.deep_view()),
            TungsteniteMessage::Frame => TungsteniteMessageView::Frame,
        }
    }
}

/// An upstream message as the client side holds it. Payloads and reasons
/// cross unchanged and a named close code becomes its number. A raw frame and
/// a close code without a name do not cross.
pub open spec fn to_axum(message: TungsteniteMessageView) -> Option<AxumMessageView> {
    match message {
        TungsteniteMessageView::Text(text) => Some(AxumMessageView::Text(text)),
        TungsteniteMessageView::Binary(bytes) => Some(AxumMessageView::Binary(bytes)),
        TungsteniteMessageView::Ping(bytes) => Some(AxumMessageView::Ping(bytes)),
        TungsteniteMessageView::Pong(bytes) => Some(AxumMessageView::Pong(bytes)),
        TungsteniteMessageView::Close(None) => Some(AxumMessageView::Close(None)),
        TungsteniteMessageView::Close(Some(frame)) => match axum_code(frame.code) {
            Some(code) => Some(
                AxumMessageView::Close(Some(CloseFrameView { code, reason: frame.reason })),
            ),
            None => None,
        },
        TungsteniteMessageView::Frame => None,
    }
}

/// A client message as the upstream side holds it. Payloads and reasons cross
/// unchanged and a close code of the table becomes its name. A close code
/// outside the table does not cross.
pub open spec fn to_tungstenite(message: AxumMessageView) -> Option<TungsteniteMessageView> {
    match message {
        AxumMessageView::Text(text) => Some(TungsteniteMessageView::Text(text)),
        AxumMessageView::Binary(bytes) => Some(TungsteniteMessageView::Binary(bytes)),
        AxumMessageView::Ping(bytes) => Some(TungsteniteMessageView::Ping(bytes)),
        AxumMessageView::Pong(bytes) => Some(TungsteniteMessageView::Pong(bytes)),
        AxumMessageView::Close(None) => Some(TungsteniteMessageView::Close(None)),
        AxumMessageView::Close(Some(frame)) => match tungstenite_code(frame.code) {
            Some(code) => Some(
                TungsteniteMessageView::Close(Some(CloseFrameView { code, reason: frame.reason })),
            ),
            None => None,
        },
    }
}

impl TungsteniteMessage {
    /// Whether the message can cross to the client side.
    pub fn is_bridgeable(&self) -> (r: bool)
        ensures
            r == to_axum(self.deep_view()) is Some,
    {
        match self {
            TungsteniteMessage::Close(Some(frame)) => is_named_close_code(frame.code),
            TungsteniteMessage::Frame => false,
            _ => true,
        }
    }
}

impl AxumMessage {
    /// Whether the message can cross to the upstream side.
    pub fn is_bridgeable(&self) -> (r: bool)
        ensures
            r == to_tungstenite(self.deep_view()) is Some,
    {
        match self {
            AxumMessage::Close(Some(frame)) => is_standard_close_code(frame.code),
            _ => true,
        }
    }
}

/// Carries an upstream message over to the client side.
pub fn tungstenite_to_axum_message(tungstenite_message: TungsteniteMessage) -> (r: AxumMessage)
    requires
        to_axum(tungstenite_message.deep_view()) is Some,
    ensures
        Some(r.deep_view()) == to_axum(tungstenite_message.deep_view()),
{
    match tungstenite_message {
        TungsteniteMessage::Text(text) => AxumMessage::Text(text),
        TungsteniteMessage::Binary(bytes) => AxumMessage::Binary(bytes),
        TungsteniteMessage::Ping(bytes) => AxumMessage::Ping(bytes),
        TungsteniteMessage::Pong(bytes) => AxumMessage::Pong(bytes),
        TungsteniteMessage::Close(None) => AxumMessage::Close(None),
        TungsteniteMessage::Close(Some(close_frame)) => AxumMessage::Close(
            Some(
                AxumCloseFrame {
                    code: tungstenite_to_axum_close_code(close_frame.code),
                    reason: close_frame.reason,
                },
            ),
        ),
        TungsteniteMessage::Frame => AxumMessage::Close(None),
    }
}

/// Carries a client message over to the upstream side.
pub fn axum_to_tungstenite_message(axum_message: AxumMessage) -> (r: TungsteniteMessage)
    requires
        to_tungstenite(axum_message.deep_view()) is Some,
    ensures
        Some(r.deep_view()) == to_tungstenite(axum_message.deep_view()),
{
    match axum_message {
        AxumMessage::Text(text) => TungsteniteMessage::Text(text),
        AxumMessage::Binary(bytes) => TungsteniteMessage::Binary(bytes),
        AxumMessage::Ping(bytes) => TungsteniteMessage::Ping(bytes),
        AxumMessage::Pong(bytes) => TungsteniteMessage::Pong(bytes),
        AxumMessage::Close(None) => TungsteniteMessage::Close(None),
        AxumMessage::Close(Some(close_frame)) => TungsteniteMessage::Close(
            Some(
                TungsteniteCloseFrame {
                    code: axum_to_tungstenite_close_code(close_frame.code),
                    reason: close_frame.reason,
                },
            ),
        ),
    }
}

/// A named close code, taken to its number and back, is the same code.
pub proof fn lemma_close_code_round_trip(code: TungsteniteCloseCode)
    requires
        axum_code(code) is Some,
    ensures
        tungstenite_code(axum_code(code)->0) == Some(code),
{
}

/// A number of the table, taken to its name and back, is the same number.
pub proof fn lemma_close_number_round_trip(code: u16)
    requires
        tungstenite_code(code) is Some,
    ensures
        axum_code(tungstenite_code(code)->0) == Some(code),
{
}

/// A client message that crosses the bridge and comes back is the message it
/// was: the same kind, the same payload, the same close code and reason.
pub proof fn lemma_axum_round_trip(message: AxumMessageView)
    requires
        to_tungstenite(message) is Some,
    ensures
        to_axum(to_tungstenite(message)->0) == Some(message),
{
    if let AxumMessageView::Close(Some(frame)) = message {
        lemma_close_number_round_trip(frame.code);
    }
}

/// An upstream message that crosses the bridge and comes back is the message
/// it was: the same kind, the same payload, the same close code and reason.
pub proof fn lemma_tungstenite_round_trip(message: TungsteniteMessageView)
    requires
        to_axum(message) is Some,
    ensures
        to_tungstenite(to_axum(message)->0) == Some(message),
{
    if let TungsteniteMessageView::Close(Some(frame)) = message {
        lemma_close_code_round_trip(frame.code);
    }
}

} // verus!
