//! Error types shared by the codec layer and the handshake state machine.

use vstd::prelude::*;

verus! {

/// Errors produced by the wire codecs (`CompactSize`, `BitcoinIpAddr`,
/// `Command`, header and version codecs).
#[derive(Clone, Copy, Debug, PartialEq, Eq, Structural)]
pub enum CodecError {
    /// The buffer ends before the indicated width of the encoded value.
    ShortBuffer,
    /// A fixed-width field was handed a buffer of the wrong length.
    BadLength,
    /// A 12-byte command field did not name any known command.
    UnknownCommand,
    /// A header carried a magic that is neither mainnet nor testnet.
    InvalidMagic,
    /// A text field did not hold valid UTF-8.
    InvalidEncoding,
}

/// The text that names a codec rejection.
pub open spec fn spec_codec_error_text(e: CodecError) -> Seq<char> {
    match e {
        CodecError::ShortBuffer => "buffer too short"@,
        CodecError::BadLength => "wrong field length"@,
        CodecError::UnknownCommand => "unknown command"@,
        CodecError::InvalidMagic => "invalid magic number"@,
        CodecError::InvalidEncoding => "invalid text encoding"@,
    }
}

impl CodecError {
    /// The rejection as text, for an error detail.
    pub fn text(&self) -> (r: String)
        ensures
            r@ == spec_codec_error_text(*self),
    {
        match self {
            CodecError::ShortBuffer => "buffer too short".to_owned(),
            CodecError::BadLength => "wrong field length".to_owned(),
            CodecError::UnknownCommand => "unknown command".to_owned(),
            CodecError::InvalidMagic => "invalid magic number".to_owned(),
            CodecError::InvalidEncoding => "invalid text encoding".to_owned(),
        }
    }
}

/// The ghost image of a [`BitcoinHandshakeError`]: the same variants with
/// detail strings abstracted to character sequences.
pub enum HandshakeErrorView {
    ConnectionFailed(Seq<char>),
    InvalidResponse(Seq<char>),
    Timeout,
    ProtocolError(Seq<char>),
    Cancelled,
}

/// The typed error surfaced by the handshake state machine.
#[derive(Debug)]
pub enum BitcoinHandshakeError {
    /// The TCP dial failed: refused, unreachable, or another OS error.
    ConnectionFailed(String),
    /// A decoded frame failed validation: bad magic, checksum mismatch,
    /// an unexpected command where `version` was owed, or a `version`
    /// payload that failed semantic verification.
    InvalidResponse(String),
    /// An I/O deadline elapsed.
    Timeout,
    /// A codec malfunction, a short read without progress after retries,
    /// or an unexpected command frame while awaiting `verack`.
    ProtocolError(String),
    /// The caller cancelled the operation at a suspension point.
    Cancelled,
}

impl View for BitcoinHandshakeError {
    type V = HandshakeErrorView;

    open spec fn view(&self) -> HandshakeErrorView {
        match self {
            BitcoinHandshakeError::ConnectionFailed(s) => HandshakeErrorView::ConnectionFailed(
                s@,
            ),
            BitcoinHandshakeError::InvalidResponse(s) => HandshakeErrorView::InvalidResponse(s@),
            BitcoinHandshakeError::Timeout => HandshakeErrorView::Timeout,
            BitcoinHandshakeError::ProtocolError(s) => HandshakeErrorView::ProtocolError(s@),
            BitcoinHandshakeError::Cancelled => HandshakeErrorView::Cancelled,
        }
    }
}

impl BitcoinHandshakeError {
    /// A value-preserving copy: the variant and the detail text carry over.
    pub fn duplicate(&self) -> (r: Self)
        ensures
            r@ == self@,
    {
        match self {
            BitcoinHandshakeError::ConnectionFailed(s) => BitcoinHandshakeError::ConnectionFailed(
                copy_string(s),
            ),
            BitcoinHandshakeError::InvalidResponse(s) => BitcoinHandshakeError::InvalidResponse(
                copy_string(s),
            ),
            BitcoinHandshakeError::Timeout => BitcoinHandshakeError::Timeout,
            BitcoinHandshakeError::ProtocolError(s) => BitcoinHandshakeError::ProtocolError(
                copy_string(s),
            ),
            BitcoinHandshakeError::Cancelled => BitcoinHandshakeError::Cancelled,
        }
    }

    /// The human-readable detail of this error.
    pub fn describe(&self) -> (r: String)
        ensures
            match self@ {
                HandshakeErrorView::ConnectionFailed(s) => r@ == s,
                HandshakeErrorView::InvalidResponse(s) => r@ == s,
                HandshakeErrorView::Timeout => r@ == "connection timed out"@,
                HandshakeErrorView::ProtocolError(s) => r@ == s,
                HandshakeErrorView::Cancelled => r@ == "operation cancelled"@,
            },
    {
        match self {
            BitcoinHandshakeError::ConnectionFailed(s) => copy_string(s),
            BitcoinHandshakeError::InvalidResponse(s) => copy_string(s),
            BitcoinHandshakeError::Timeout => "connection timed out".to_owned(),
            BitcoinHandshakeError::ProtocolError(s) => copy_string(s),
            BitcoinHandshakeError::Cancelled => "operation cancelled".to_owned(),
        }
    }
}

/// A fresh `String` with the same characters.
pub fn copy_string(s: &String) -> (r: String)
    ensures
        r@ == s@,
{
    s.as_str().to_owned()
}

/// The general peer lifecycle, independent of the Bitcoin-specific
/// handshake states.
#[derive(Clone, Copy, Debug, PartialEq, Eq, Structural)]
pub enum PeerState {
    Initialize,
    NetworkConnecting,
    NetworkConnected,
    Authenticated,
    Error(CommunicationError),
    Closed,
}

/// Coarse communication failures reported at the peer level.
#[derive(Clone, Copy, Debug, PartialEq, Eq, Structural)]
pub enum CommunicationError {
    NetworkError,
    ProtocolError,
}

} // verus!
