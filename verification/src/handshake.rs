//! The Bitcoin handshake state machine: a typed sequence of connection
//! states driving the protocol from `Disconnected` to `Established` or
//! `Failed`.
//!
//! The machine is pure: every transition is one call of
//! [`BitcoinConnectionProtocol::advance`], which consumes the outcome of
//! the previous I/O action and says which I/O action to perform next.
//! The TCP channel is whatever type the caller drives the machine with;
//! it enters through events and leaves through actions, so a transition
//! can neither duplicate it nor reach it again after a failure.

use vstd::prelude::*;
use vstd::utf8::encode_utf8;

use crate::commands::Command;
use crate::errors::{spec_codec_error_text, BitcoinHandshakeError, HandshakeErrorView};
use crate::header::{
    sha2_checksum, spec_double_sha256_checksum, spec_header_decode, spec_header_encode,
    spec_verack_checksum, verack_checksum, HeaderCodec, HeaderDecodeResult, HeaderMessage,
    HeaderMessageView, MAINNET_MAGIC,
};
use crate::types::BitcoinIpAddr;
use crate::version::{
    lemma_version_encode_len, spec_verification_error_text, spec_verify_version,
    spec_version_decode, spec_version_encode, unix_timestamp_now, VersionCodec,
    VersionDecodeResult, VersionMessage, VersionMessageView,
};

verus! {

/// The remote endpoint this client dials: an address and a TCP port.
#[derive(Clone, Copy, Debug, PartialEq)]
pub struct PeerAddress {
    pub ip: BitcoinIpAddr,
    pub port: u16,
}

/// What is known about the remote peer: where it listens, and, once its
/// `version` message has been read, that message.
#[derive(Debug)]
pub struct BitcoinConnectionInfo {
    pub public_address: PeerAddress,
    pub version: Option<VersionMessage>,
}

/// The ghost image of a [`BitcoinConnectionInfo`].
#[verifier::ext_equal]
pub struct ConnectionInfoView {
    pub address_ip: Seq<u8>,
    pub address_port: u16,
    pub version: Option<VersionMessageView>,
}

impl View for BitcoinConnectionInfo {
    type V = ConnectionInfoView;

    open spec fn view(&self) -> ConnectionInfoView {
        ConnectionInfoView {
            address_ip: self.public_address.ip@,
            address_port: self.public_address.port,
            version: match self.version {
                Some(v) => Some(v@),
                None => None,
            },
        }
    }
}

impl BitcoinConnectionInfo {
    /// A value-preserving copy.
    pub fn duplicate(&self) -> (r: Self)
        ensures
            r@ == self@,
    {
        let version = match &self.version {
            Some(v) => Some(v.duplicate()),
            None => None,
        };
        let r = BitcoinConnectionInfo { public_address: self.public_address, version };
        proof {
            assert(r@ =~= self@);
        }
        r
    }
}

/// This client's own handshake settings: the user agent it advertises
/// and whether inbound `version` messages are semantically verified
/// (the strict default).
#[derive(Debug)]
pub struct BitcoinOwnConfiguration {
    pub user_agent: String,
    pub verify_version: bool,
}

impl Default for BitcoinOwnConfiguration {
    /// The default configuration: the stock user agent, strict
    /// verification.
    fn default() -> (r: Self)
        ensures
            r.user_agent@ == "RZ Bitcoin client"@,
            r.verify_version == true,
    {
        BitcoinOwnConfiguration { user_agent: "RZ Bitcoin client".to_owned(), verify_version: true }
    }
}

/// The states of the handshake. `AwaitVersion` remembers the header it
/// has read while the payload is still owed; `AwaitVerAck` counts the
/// read attempts it has left.
#[derive(Debug)]
pub enum BitcoinConnectionStates {
    Disconnected,
    Connecting,
    SendVersion,
    AwaitVersion { header: Option<HeaderMessage> },
    SendVerAck,
    AwaitVerAck { attempts_left: u8 },
    Established,
    Failed(BitcoinHandshakeError),
}

/// The outcome of the previous I/O action, handed into `advance`. The
/// channel value `C` rides along in the events that return it.
pub enum HandshakeEvent<C> {
    /// Start the handshake; the first event, before any I/O.
    Begin,
    /// The TCP dial succeeded, yielding the channel.
    Dialed(C),
    /// The TCP dial failed; the OS error as text.
    DialFailed(String),
    /// The pending I/O ran out of time.
    TimedOut,
    /// The requested bytes were written.
    Wrote(C),
    /// Writing failed; the channel was dropped.
    WriteFailed(String),
    /// Exactly the requested header bytes were read.
    HeaderRead(C, Vec<u8>),
    /// Exactly the requested payload bytes were read.
    PayloadRead(C, Vec<u8>),
    /// The stream ended before a full frame; the channel survives.
    ReadIncomplete(C),
    /// Reading failed; the channel was dropped.
    ReadFailed(String),
    /// The caller cancelled the operation.
    Cancelled,
}

/// The I/O action the driver must perform next.
pub enum HandshakeAction<C> {
    /// Open a TCP connection to the configured peer.
    Dial,
    /// Write these bytes on the channel.
    Write(C, Vec<u8>),
    /// Read exactly 24 header bytes from the channel.
    ReadHeader(C),
    /// Read exactly this many payload bytes from the channel.
    ReadPayload(C, u32),
    /// The handshake is complete: the channel and the peer's
    /// information are surrendered to the caller.
    Finished(C, BitcoinConnectionInfo),
    /// The handshake failed; no channel survives.
    Failed(BitcoinHandshakeError),
}

/// The channel an event carries, if any.
pub open spec fn spec_event_channel<C>(e: HandshakeEvent<C>) -> Option<C> {
    match e {
        HandshakeEvent::Dialed(c) => Some(c),
        HandshakeEvent::Wrote(c) => Some(c),
        HandshakeEvent::HeaderRead(c, _) => Some(c),
        HandshakeEvent::PayloadRead(c, _) => Some(c),
        HandshakeEvent::ReadIncomplete(c) => Some(c),
        _ => None,
    }
}

/// The channel an action carries, if any. A `Failed` action carries
/// none: after a failure the channel is no longer reachable.
pub open spec fn spec_action_channel<C>(a: HandshakeAction<C>) -> Option<C> {
    match a {
        HandshakeAction::Write(c, _) => Some(c),
        HandshakeAction::ReadHeader(c) => Some(c),
        HandshakeAction::ReadPayload(c, _) => Some(c),
        HandshakeAction::Finished(c, _) => Some(c),
        _ => None,
    }
}

/// The `version` message this client sends: the defaults of
/// [`VersionMessage::new`] with the given user agent, time and nonce.
pub open spec fn spec_default_version_view(
    user_agent: Seq<char>,
    timestamp: i64,
    nonce: u64,
) -> VersionMessageView {
    VersionMessageView {
        version: 70015,
        services: 1,
        timestamp,
        addr_recv_services: 1,
        addr_recv_ip: seq![0u8; 16],
        addr_recv_port: 0,
        addr_trans_services: 1,
        addr_trans_ip: seq![0u8; 16],
        addr_trans_port: 0,
        nonce,
        user_agent_bytes: encode_utf8(user_agent).len() as u64,
        user_agent,
        start_height: 0,
        relay: false,
    }
}

/// The whole outbound `version` frame: a mainnet header carrying the
/// payload's length and checksum, then the payload.
pub open spec fn spec_version_frame(user_agent: Seq<char>, timestamp: i64, nonce: u64) -> Seq<
    u8,
> {
    let payload = spec_version_encode(spec_default_version_view(user_agent, timestamp, nonce));
    spec_header_encode(
        HeaderMessageView {
            magic: MAINNET_MAGIC,
            command: Command::Version,
            payload_length: payload.len() as u32,
            checksum: spec_double_sha256_checksum(payload),
        },
    ) + payload
}

/// The whole outbound `verack` frame: a mainnet header with no payload
/// and the constant empty-payload checksum.
pub open spec fn spec_verack_frame() -> Seq<u8> {
    spec_header_encode(
        HeaderMessageView {
            magic: MAINNET_MAGIC,
            command: Command::VerAck,
            payload_length: 0,
            checksum: spec_verack_checksum(),
        },
    )
}

/// The fields a transition never changes: the configuration and the
/// peer's address.
pub open spec fn spec_same_config(
    pre: BitcoinConnectionProtocol,
    post: BitcoinConnectionProtocol,
) -> bool {
    &&& post.user_agent == pre.user_agent
    &&& post.verify_version == pre.verify_version
    &&& post.connection_info.public_address == pre.connection_info.public_address
}

/// A failing transition: the machine lands in `Failed` with the given
/// error, the action reports the same error, and the peer information
/// is untouched.
pub open spec fn spec_fails<C>(
    pre: BitcoinConnectionProtocol,
    post: BitcoinConnectionProtocol,
    a: HandshakeAction<C>,
    err: HandshakeErrorView,
) -> bool {
    &&& post.connection_info == pre.connection_info
    &&& (post.state matches BitcoinConnectionStates::Failed(e) && e@ == err)
    &&& (a matches HandshakeAction::Failed(e) && e@ == err)
}

/// An event that the current state has no use for.
pub open spec fn spec_misuse<C>(
    pre: BitcoinConnectionProtocol,
    post: BitcoinConnectionProtocol,
    a: HandshakeAction<C>,
) -> bool {
    spec_fails(pre, post, a, HandshakeErrorView::ProtocolError("unexpected event for this state"@))
}

/// Accepting an inbound `version` message: it is stored in the peer
/// information, the machine moves to `SendVerAck`, and the action
/// writes the `verack` frame on the same channel.
pub open spec fn spec_accepts_version<C>(
    pre: BitcoinConnectionProtocol,
    post: BitcoinConnectionProtocol,
    a: HandshakeAction<C>,
    c: C,
    vv: VersionMessageView,
) -> bool {
    &&& post.state is SendVerAck
    &&& (post.connection_info.version matches Some(v) && v@ == vv)
    &&& (a matches HandshakeAction::Write(c2, frame) && c2 == c && frame@ == spec_verack_frame())
}

/// The `AwaitVersion` payload step: the payload must match the header's
/// length and checksum and decode as a `version` message; with
/// verification on, the message must pass the semantic checks against
/// some current time. On success the message is stored and the `verack`
/// frame goes out.
pub open spec fn spec_payload_step<C>(
    pre: BitcoinConnectionProtocol,
    c: C,
    payload: Seq<u8>,
    h: HeaderMessageView,
    post: BitcoinConnectionProtocol,
    a: HandshakeAction<C>,
) -> bool {
    if payload.len() != h.payload_length {
        spec_fails(pre, post, a, HandshakeErrorView::ProtocolError("payload length mismatch"@))
    } else if spec_double_sha256_checksum(payload) != h.checksum {
        spec_fails(
            pre,
            post,
            a,
            HandshakeErrorView::InvalidResponse("payload checksum mismatch"@),
        )
    } else {
        match spec_version_decode(payload) {
            VersionDecodeResult::Incomplete => spec_fails(
                pre,
                post,
                a,
                HandshakeErrorView::ProtocolError("could not read the version payload"@),
            ),
            VersionDecodeResult::Rejected(ce) => spec_fails(
                pre,
                post,
                a,
                HandshakeErrorView::ProtocolError(spec_codec_error_text(ce)),
            ),
            VersionDecodeResult::Value(vv) => if !pre.verify_version {
                spec_accepts_version(pre, post, a, c, vv)
            } else {
                exists|now: int|
                    #![trigger spec_verify_version(vv, now)]
                    match spec_verify_version(vv, now) {
                        Ok(_) => spec_accepts_version(pre, post, a, c, vv),
                        Err(k) => spec_fails(
                            pre,
                            post,
                            a,
                            HandshakeErrorView::InvalidResponse(
                                spec_verification_error_text(k),
                            ),
                        ),
                    }
            },
        }
    }
}

/// The full transition relation of the handshake: for each state and
/// event, the next state, the peer information, and the action.
pub open spec fn spec_advance_rel<C>(
    pre: BitcoinConnectionProtocol,
    e: HandshakeEvent<C>,
    post: BitcoinConnectionProtocol,
    a: HandshakeAction<C>,
) -> bool {
    &&& spec_same_config(pre, post)
    &&& match pre.state {
        BitcoinConnectionStates::Disconnected => match e {
            HandshakeEvent::Begin => {
                &&& post.state is Connecting
                &&& post.connection_info == pre.connection_info
                &&& a is Dial
            },
            HandshakeEvent::Cancelled => spec_fails(pre, post, a, HandshakeErrorView::Cancelled),
            _ => spec_misuse(pre, post, a),
        },
        BitcoinConnectionStates::Connecting => match e {
            HandshakeEvent::Dialed(c) => {
                &&& post.state is SendVersion
                &&& post.connection_info == pre.connection_info
                &&& (a matches HandshakeAction::Write(c2, frame) && c2 == c && (exists|
                    ts: i64,
                    nonce: u64,
                |
                    frame@ == spec_version_frame(pre.user_agent@, ts, nonce)))
            },
            HandshakeEvent::DialFailed(m) => spec_fails(
                pre,
                post,
                a,
                HandshakeErrorView::ConnectionFailed(m@),
            ),
            HandshakeEvent::TimedOut => spec_fails(pre, post, a, HandshakeErrorView::Timeout),
            HandshakeEvent::Cancelled => spec_fails(pre, post, a, HandshakeErrorView::Cancelled),
            _ => spec_misuse(pre, post, a),
        },
        BitcoinConnectionStates::SendVersion => match e {
            HandshakeEvent::Wrote(c) => {
                &&& (post.state matches BitcoinConnectionStates::AwaitVersion { header }
                    && header is None)
                &&& post.connection_info == pre.connection_info
                &&& (a matches HandshakeAction::ReadHeader(c2) && c2 == c)
            },
            HandshakeEvent::WriteFailed(m) => spec_fails(
                pre,
                post,
                a,
                HandshakeErrorView::ProtocolError(m@),
            ),
            HandshakeEvent::TimedOut => spec_fails(pre, post, a, HandshakeErrorView::Timeout),
            HandshakeEvent::Cancelled => spec_fails(pre, post, a, HandshakeErrorView::Cancelled),
            _ => spec_misuse(pre, post, a),
        },
        BitcoinConnectionStates::AwaitVersion { header: pending } => match pending {
            None => match e {
                HandshakeEvent::HeaderRead(c, bytes) => match spec_header_decode(bytes@) {
                    HeaderDecodeResult::Incomplete => spec_fails(
                        pre,
                        post,
                        a,
                        HandshakeErrorView::ProtocolError("could not read a full header"@),
                    ),
                    HeaderDecodeResult::Rejected(ce) => spec_fails(
                        pre,
                        post,
                        a,
                        HandshakeErrorView::InvalidResponse(spec_codec_error_text(ce)),
                    ),
                    HeaderDecodeResult::Value(hv) => if hv.command != Command::Version {
                        spec_fails(
                            pre,
                            post,
                            a,
                            HandshakeErrorView::InvalidResponse("expected the version command"@),
                        )
                    } else {
                        &&& (post.state matches BitcoinConnectionStates::AwaitVersion { header }
                            && header matches Some(h) && h@ == hv)
                        &&& post.connection_info == pre.connection_info
                        &&& (a matches HandshakeAction::ReadPayload(c2, n) && c2 == c && n
                            == hv.payload_length)
                    },
                },
                HandshakeEvent::ReadIncomplete(_) => spec_fails(
                    pre,
                    post,
                    a,
                    HandshakeErrorView::ProtocolError("connection closed before a full frame"@),
                ),
                HandshakeEvent::ReadFailed(m) => spec_fails(
                    pre,
                    post,
                    a,
                    HandshakeErrorView::ProtocolError(m@),
                ),
                HandshakeEvent::TimedOut => spec_fails(pre, post, a, HandshakeErrorView::Timeout),
                HandshakeEvent::Cancelled => spec_fails(
                    pre,
                    post,
                    a,
                    HandshakeErrorView::Cancelled,
                ),
                _ => spec_misuse(pre, post, a),
            },
            Some(h) => match e {
                HandshakeEvent::PayloadRead(c, payload) => spec_payload_step(
                    pre,
                    c,
                    payload@,
                    h@,
                    post,
                    a,
                ),
                HandshakeEvent::ReadIncomplete(_) => spec_fails(
                    pre,
                    post,
                    a,
                    HandshakeErrorView::ProtocolError("connection closed before a full frame"@),
                ),
                HandshakeEvent::ReadFailed(m) => spec_fails(
                    pre,
                    post,
                    a,
                    HandshakeErrorView::ProtocolError(m@),
                ),
                HandshakeEvent::TimedOut => spec_fails(pre, post, a, HandshakeErrorView::Timeout),
                HandshakeEvent::Cancelled => spec_fails(
                    pre,
                    post,
                    a,
                    HandshakeErrorView::Cancelled,
                ),
                _ => spec_misuse(pre, post, a),
            },
        },
        BitcoinConnectionStates::SendVerAck => match e {
            HandshakeEvent::Wrote(c) => {
                &&& (post.state matches BitcoinConnectionStates::AwaitVerAck { attempts_left }
                    && attempts_left == 3)
                &&& post.connection_info == pre.connection_info
                &&& (a matches HandshakeAction::ReadHeader(c2) && c2 == c)
            },
            HandshakeEvent::WriteFailed(m) => spec_fails(
                pre,
                post,
                a,
                HandshakeErrorView::ProtocolError(m@),
            ),
            HandshakeEvent::TimedOut => spec_fails(pre, post, a, HandshakeErrorView::Timeout),
            HandshakeEvent::Cancelled => spec_fails(pre, post, a, HandshakeErrorView::Cancelled),
            _ => spec_misuse(pre, post, a),
        },
        BitcoinConnectionStates::AwaitVerAck { attempts_left } => match e {
            HandshakeEvent::HeaderRead(c, bytes) => match spec_header_decode(bytes@) {
                HeaderDecodeResult::Incomplete => spec_fails(
                    pre,
                    post,
                    a,
                    HandshakeErrorView::ProtocolError("could not read a full header"@),
                ),
                HeaderDecodeResult::Rejected(ce) => spec_fails(
                    pre,
                    post,
                    a,
                    HandshakeErrorView::ProtocolError(spec_codec_error_text(ce)),
                ),
                HeaderDecodeResult::Value(hv) => if hv.command != Command::VerAck {
                    spec_fails(
                        pre,
                        post,
                        a,
                        HandshakeErrorView::ProtocolError("expected the verack command"@),
                    )
                } else {
                    &&& post.state is Established
                    &&& post.connection_info == pre.connection_info
                    &&& (a matches HandshakeAction::Finished(c2, info) && c2 == c && info@
                        == pre.connection_info@)
                },
            },
            HandshakeEvent::ReadIncomplete(c) => if attempts_left > 1 {
                &&& (post.state matches BitcoinConnectionStates::AwaitVerAck { attempts_left: n }
                    && n == attempts_left - 1)
                &&& post.connection_info == pre.connection_info
                &&& (a matches HandshakeAction::ReadHeader(c2) && c2 == c)
            } else {
                spec_fails(
                    pre,
                    post,
                    a,
                    HandshakeErrorView::ProtocolError("no verack after three read attempts"@),
                )
            },
            HandshakeEvent::ReadFailed(m) => spec_fails(
                pre,
                post,
                a,
                HandshakeErrorView::ProtocolError(m@),
            ),
            HandshakeEvent::TimedOut => spec_fails(pre, post, a, HandshakeErrorView::Timeout),
            HandshakeEvent::Cancelled => spec_fails(pre, post, a, HandshakeErrorView::Cancelled),
            _ => spec_misuse(pre, post, a),
        },
        BitcoinConnectionStates::Established => {
            &&& post.state is Established
            &&& post.connection_info == pre.connection_info
            &&& (a matches HandshakeAction::Failed(err) && err@
                == HandshakeErrorView::ProtocolError("handshake already complete"@))
        },
        BitcoinConnectionStates::Failed(err) => {
            &&& (post.state matches BitcoinConnectionStates::Failed(e2) && e2@ == err@)
            &&& post.connection_info == pre.connection_info
            &&& (a matches HandshakeAction::Failed(e3) && e3@ == err@)
        },
    }
}

/// The driver of the handshake: the current state, the peer
/// information, and this client's configuration.
#[derive(Debug)]
pub struct BitcoinConnectionProtocol {
    pub state: BitcoinConnectionStates,
    pub connection_info: BitcoinConnectionInfo,
    pub user_agent: String,
    pub verify_version: bool,
}

impl BitcoinConnectionProtocol {
    /// The machine's invariant: the advertised user agent fits the
    /// protocol's bound; the peer's `version` is absent until
    /// `AwaitVersion` succeeds and present from `SendVerAck` on, never
    /// overwritten; `AwaitVerAck` has between one and three read
    /// attempts left.
    pub open spec fn wf(self) -> bool {
        &&& encode_utf8(self.user_agent@).len() <= 256
        &&& match self.state {
            BitcoinConnectionStates::Disconnected
            | BitcoinConnectionStates::Connecting
            | BitcoinConnectionStates::SendVersion => self.connection_info.version is None,
            BitcoinConnectionStates::AwaitVersion { .. } => self.connection_info.version is None,
            BitcoinConnectionStates::SendVerAck
            | BitcoinConnectionStates::Established => self.connection_info.version is Some,
            BitcoinConnectionStates::AwaitVerAck { attempts_left } => {
                self.connection_info.version is Some && 1 <= attempts_left <= 3
            },
            BitcoinConnectionStates::Failed(_) => true,
        }
    }

    /// A fresh machine in `Disconnected`, dialled towards the given
    /// peer with this client's configuration. The user agent must fit
    /// the wire bound of 256 bytes, and nothing may be known of the
    /// peer's `version` yet.
    pub fn new(
        connection_info: BitcoinConnectionInfo,
        configuration: BitcoinOwnConfiguration,
    ) -> (r: Self)
        requires
            encode_utf8(configuration.user_agent@).len() <= 256,
            connection_info.version is None,
        ensures
            r.wf(),
            r.state is Disconnected,
            r.connection_info == connection_info,
            r.user_agent == configuration.user_agent,
            r.verify_version == configuration.verify_version,
    {
        BitcoinConnectionProtocol {
            state: BitcoinConnectionStates::Disconnected,
            connection_info,
            user_agent: configuration.user_agent,
            verify_version: configuration.verify_version,
        }
    }

    /// Lands the machine in `Failed` with the given error; the action
    /// reports the same error and carries no channel.
    fn fail<C>(&mut self, err: BitcoinHandshakeError) -> (a: HandshakeAction<C>)
        ensures
            spec_fails(*old(self), *final(self), a, err@),
            final(self).connection_info == old(self).connection_info,
            final(self).user_agent == old(self).user_agent,
            final(self).verify_version == old(self).verify_version,
    {
        let reported = err.duplicate();
        self.state = BitcoinConnectionStates::Failed(err);
        HandshakeAction::Failed(reported)
    }

    /// Performs exactly one transition: consumes the outcome of the
    /// previous I/O action and produces the next action, as
    /// [`spec_advance_rel`] states. A channel handed back by the action
    /// is exactly the channel the event brought, and a transition into
    /// `Failed` hands none back: the channel is owned by one place at a
    /// time and unreachable after a failure.
    pub fn advance<C>(&mut self, event: HandshakeEvent<C>) -> (a: HandshakeAction<C>)
        requires
            old(self).wf(),
        ensures
            final(self).wf(),
            spec_advance_rel(*old(self), event, *final(self), a),
            spec_action_channel(a) is Some ==> spec_event_channel(event)
                == spec_action_channel(a),
            final(self).state matches BitcoinConnectionStates::Failed(_) ==> spec_action_channel(
                a,
            ) is None,
    {
        let mut state = BitcoinConnectionStates::Disconnected;
        core::mem::swap(&mut state, &mut self.state);
        match state {
            BitcoinConnectionStates::Disconnected => match event {
                HandshakeEvent::Begin => {
                    self.state = BitcoinConnectionStates::Connecting;
                    HandshakeAction::Dial
                },
                HandshakeEvent::Cancelled => self.fail(BitcoinHandshakeError::Cancelled),
                _ => self.fail_misuse(),
            },
            BitcoinConnectionStates::Connecting => match event {
                HandshakeEvent::Dialed(c) => {
                    let frame = self.build_version_frame();
                    self.state = BitcoinConnectionStates::SendVersion;
                    HandshakeAction::Write(c, frame)
                },
                HandshakeEvent::DialFailed(m) => self.fail(
                    BitcoinHandshakeError::ConnectionFailed(m),
                ),
                HandshakeEvent::TimedOut => self.fail(BitcoinHandshakeError::Timeout),
                HandshakeEvent::Cancelled => self.fail(BitcoinHandshakeError::Cancelled),
                _ => self.fail_misuse(),
            },
            BitcoinConnectionStates::SendVersion => match event {
                HandshakeEvent::Wrote(c) => {
                    self.state = BitcoinConnectionStates::AwaitVersion { header: None };
                    HandshakeAction::ReadHeader(c)
                },
                HandshakeEvent::WriteFailed(m) => self.fail(
                    BitcoinHandshakeError::ProtocolError(m),
                ),
                HandshakeEvent::TimedOut => self.fail(BitcoinHandshakeError::Timeout),
                HandshakeEvent::Cancelled => self.fail(BitcoinHandshakeError::Cancelled),
                _ => self.fail_misuse(),
            },
            BitcoinConnectionStates::AwaitVersion { header: None } => match event {
                HandshakeEvent::HeaderRead(c, bytes) => {
                    let mut buf = bytes;
                    let mut codec = HeaderCodec;
                    match codec.decode(&mut buf) {
                        Ok(None) => self.fail(
                            BitcoinHandshakeError::ProtocolError(
                                "could not read a full header".to_owned(),
                            ),
                        ),
                        Err(ce) => self.fail(BitcoinHandshakeError::InvalidResponse(ce.text())),
                        Ok(Some(h)) => {
                            if !matches!(h.command, Command::Version) {
                                self.fail(
                                    BitcoinHandshakeError::InvalidResponse(
                                        "expected the version command".to_owned(),
                                    ),
                                )
                            } else {
                                let n = h.payload_length;
                                self.state = BitcoinConnectionStates::AwaitVersion {
                                    header: Some(h),
                                };
                                HandshakeAction::ReadPayload(c, n)
                            }
                        },
                    }
                },
                HandshakeEvent::ReadIncomplete(_) => self.fail(
                    BitcoinHandshakeError::ProtocolError(
                        "connection closed before a full frame".to_owned(),
                    ),
                ),
                HandshakeEvent::ReadFailed(m) => self.fail(
                    BitcoinHandshakeError::ProtocolError(m),
                ),
                HandshakeEvent::TimedOut => self.fail(BitcoinHandshakeError::Timeout),
                HandshakeEvent::Cancelled => self.fail(BitcoinHandshakeError::Cancelled),
                _ => self.fail_misuse(),
            },
            BitcoinConnectionStates::AwaitVersion { header: Some(h) } => match event {
                HandshakeEvent::PayloadRead(c, payload) => self.handle_version_payload(
                    c,
                    payload,
                    h,
                ),
                HandshakeEvent::ReadIncomplete(_) => self.fail(
                    BitcoinHandshakeError::ProtocolError(
                        "connection closed before a full frame".to_owned(),
                    ),
                ),
                HandshakeEvent::ReadFailed(m) => self.fail(
                    BitcoinHandshakeError::ProtocolError(m),
                ),
                HandshakeEvent::TimedOut => self.fail(BitcoinHandshakeError::Timeout),
                HandshakeEvent::Cancelled => self.fail(BitcoinHandshakeError::Cancelled),
                _ => self.fail_misuse(),
            },
            BitcoinConnectionStates::SendVerAck => match event {
                HandshakeEvent::Wrote(c) => {
                    self.state = BitcoinConnectionStates::AwaitVerAck { attempts_left: 3 };
                    HandshakeAction::ReadHeader(c)
                },
                HandshakeEvent::WriteFailed(m) => self.fail(
                    BitcoinHandshakeError::ProtocolError(m),
                ),
                HandshakeEvent::TimedOut => self.fail(BitcoinHandshakeError::Timeout),
                HandshakeEvent::Cancelled => self.fail(BitcoinHandshakeError::Cancelled),
                _ => self.fail_misuse(),
            },
            BitcoinConnectionStates::AwaitVerAck { attempts_left } => match event {
                HandshakeEvent::HeaderRead(c, bytes) => {
                    let mut buf = bytes;
                    let mut codec = HeaderCodec;
                    match codec.decode(&mut buf) {
                        Ok(None) => self.fail(
                            BitcoinHandshakeError::ProtocolError(
                                "could not read a full header".to_owned(),
                            ),
                        ),
                        Err(ce) => self.fail(BitcoinHandshakeError::ProtocolError(ce.text())),
                        Ok(Some(h)) => {
                            if !matches!(h.command, Command::VerAck) {
                                self.fail(
                                    BitcoinHandshakeError::ProtocolError(
                                        "expected the verack command".to_owned(),
                                    ),
                                )
                            } else {
                                self.state = BitcoinConnectionStates::Established;
                                let info = self.connection_info.duplicate();
                                HandshakeAction::Finished(c, info)
                            }
                        },
                    }
                },
                HandshakeEvent::ReadIncomplete(c) => {
                    if attempts_left > 1 {
                        self.state = BitcoinConnectionStates::AwaitVerAck {
                            attempts_left: attempts_left - 1,
                        };
                        HandshakeAction::ReadHeader(c)
                    } else {
                        self.fail(
                            BitcoinHandshakeError::ProtocolError(
                                "no verack after three read attempts".to_owned(),
                            ),
                        )
                    }
                },
                HandshakeEvent::ReadFailed(m) => self.fail(
                    BitcoinHandshakeError::ProtocolError(m),
                ),
                HandshakeEvent::TimedOut => self.fail(BitcoinHandshakeError::Timeout),
                HandshakeEvent::Cancelled => self.fail(BitcoinHandshakeError::Cancelled),
                _ => self.fail_misuse(),
            },
            BitcoinConnectionStates::Established => {
                self.state = BitcoinConnectionStates::Established;
                HandshakeAction::Failed(
                    BitcoinHandshakeError::ProtocolError("handshake already complete".to_owned()),
                )
            },
            BitcoinConnectionStates::Failed(err) => {
                let reported = err.duplicate();
                self.state = BitcoinConnectionStates::Failed(err);
                HandshakeAction::Failed(reported)
            },
        }
    }

    /// The misuse error, for an event the current state has no use for.
    fn fail_misuse<C>(&mut self) -> (a: HandshakeAction<C>)
        ensures
            spec_misuse(*old(self), *final(self), a),
            final(self).connection_info == old(self).connection_info,
            final(self).user_agent == old(self).user_agent,
            final(self).verify_version == old(self).verify_version,
    {
        self.fail(
            BitcoinHandshakeError::ProtocolError("unexpected event for this state".to_owned()),
        )
    }

    /// Builds this client's `version` frame: header and payload, with a
    /// fresh timestamp and nonce.
    fn build_version_frame(&mut self) -> (frame: Vec<u8>)
        requires
            encode_utf8(old(self).user_agent@).len() <= 256,
        ensures
            *final(self) == *old(self),
            exists|ts: i64, nonce: u64|
                frame@ == spec_version_frame(old(self).user_agent@, ts, nonce),
    {
        let msg = VersionMessage::new(self.user_agent.as_str(), 0);
        let mut payload: Vec<u8> = Vec::new();
        let mut version_codec = VersionCodec;
        match version_codec.encode(&msg, &mut payload) {
            Ok(_) => {},
            Err(_) => {
                proof {
                    assert(false);
                }
            },
        }
        proof {
            lemma_version_encode_len(msg@);
            assert(msg@ =~= spec_default_version_view(
                self.user_agent@,
                msg.timestamp,
                msg.nonce,
            ));
        }
        let header = HeaderMessage::new(Command::Version, payload.as_slice());
        let mut frame: Vec<u8> = Vec::new();
        let mut header_codec = HeaderCodec;
        match header_codec.encode(header, &mut frame) {
            Ok(_) => {},
            Err(_) => {
                proof {
                    assert(false);
                }
            },
        }
        let mut payload_tail = payload;
        frame.append(&mut payload_tail);
        proof {
            assert(frame@ =~= spec_version_frame(self.user_agent@, msg.timestamp, msg.nonce));
        }
        frame
    }

    /// Handles the `version` payload once its header is in hand: the
    /// length and checksum must match the header, the payload must
    /// decode, and, when verification is on, the message must pass the
    /// semantic checks against the current time.
    fn handle_version_payload<C>(
        &mut self,
        c: C,
        payload: Vec<u8>,
        h: HeaderMessage,
    ) -> (a: HandshakeAction<C>)
        ensures
            spec_payload_step(*old(self), c, payload@, h@, *final(self), a),
            final(self).user_agent == old(self).user_agent,
            final(self).verify_version == old(self).verify_version,
            final(self).connection_info.public_address
                == old(self).connection_info.public_address,
            (final(self).state matches BitcoinConnectionStates::Failed(_)
                && final(self).connection_info == old(self).connection_info)
                || (final(self).state is SendVerAck
                    && final(self).connection_info.version is Some),
            spec_action_channel(a) is Some ==> spec_action_channel(a) == Some(c),
            final(self).state matches BitcoinConnectionStates::Failed(_)
                ==> spec_action_channel(a) is None,
    {
        if payload.len() as u64 != h.payload_length as u64 {
            return self.fail(
                BitcoinHandshakeError::ProtocolError("payload length mismatch".to_owned()),
            );
        }
        let computed = sha2_checksum(payload.as_slice());
        let sum_matches = computed[0] == h.checksum[0] && computed[1] == h.checksum[1]
            && computed[2] == h.checksum[2] && computed[3] == h.checksum[3];
        proof {
            if sum_matches {
                assert(computed@ =~= h.checksum@);
            } else {
                if computed@ == h.checksum@ {
                    assert(computed@[0] == h.checksum@[0]);
                    assert(computed@[1] == h.checksum@[1]);
                    assert(computed@[2] == h.checksum@[2]);
                    assert(computed@[3] == h.checksum@[3]);
                }
            }
        }
        if !sum_matches {
            return self.fail(
                BitcoinHandshakeError::InvalidResponse("payload checksum mismatch".to_owned()),
            );
        }
        let mut codec = VersionCodec;
        match codec.decode(payload.as_slice()) {
            Ok(None) => self.fail(
                BitcoinHandshakeError::ProtocolError(
                    "could not read the version payload".to_owned(),
                ),
            ),
            Err(ce) => self.fail(BitcoinHandshakeError::ProtocolError(ce.text())),
            Ok(Some(v)) => {
                let ghost pre = *self;
                if self.verify_version {
                    let now = unix_timestamp_now();
                    let ghost gnow: int = now as int;
                    match v.verify_message(now) {
                        Err(k) => {
                            let a = self.fail(BitcoinHandshakeError::InvalidResponse(k.text()));
                            proof {
                                assert(match spec_verify_version(v@, gnow) {
                                    Ok(_) => spec_accepts_version(pre, *self, a, c, v@),
                                    Err(k2) => spec_fails(
                                        pre,
                                        *self,
                                        a,
                                        HandshakeErrorView::InvalidResponse(
                                            spec_verification_error_text(k2),
                                        ),
                                    ),
                                });
                            }
                            return a;
                        },
                        Ok(_) => {
                            let a = self.accept_version(c, v);
                            proof {
                                assert(match spec_verify_version(v@, gnow) {
                                    Ok(_) => spec_accepts_version(pre, *self, a, c, v@),
                                    Err(k2) => spec_fails(
                                        pre,
                                        *self,
                                        a,
                                        HandshakeErrorView::InvalidResponse(
                                            spec_verification_error_text(k2),
                                        ),
                                    ),
                                });
                            }
                            return a;
                        },
                    }
                }
                self.accept_version(c, v)
            },
        }
    }

    /// Stores the accepted `version` message, moves to `SendVerAck`,
    /// and emits the `verack` frame.
    fn accept_version<C>(&mut self, c: C, v: VersionMessage) -> (a: HandshakeAction<C>)
        ensures
            spec_accepts_version(*old(self), *final(self), a, c, v@),
            final(self).state is SendVerAck,
            final(self).connection_info.version is Some,
            final(self).user_agent == old(self).user_agent,
            final(self).verify_version == old(self).verify_version,
            final(self).connection_info.public_address
                == old(self).connection_info.public_address,
            spec_action_channel(a) == Some(c),
    {
        self.connection_info.version = Some(v);
        self.state = BitcoinConnectionStates::SendVerAck;
        let header = HeaderMessage::new_without_payload(Command::VerAck, verack_checksum());
        let mut frame: Vec<u8> = Vec::new();
        let mut header_codec = HeaderCodec;
        match header_codec.encode(header, &mut frame) {
            Ok(_) => {},
            Err(_) => {
                proof {
                    assert(false);
                }
            },
        }
        proof {
            assert(header@ =~= HeaderMessageView {
                magic: MAINNET_MAGIC,
                command: Command::VerAck,
                payload_length: 0,
                checksum: spec_verack_checksum(),
            });
            assert(frame@ =~= spec_verack_frame());
        }
        HandshakeAction::Write(c, frame)
    }
}

} // verus!
