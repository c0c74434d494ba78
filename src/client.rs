//! The session: handshake, version negotiation, `StartApi`, and the
//! connection lifecycle, as a state machine. Each method takes one event or
//! request and returns what is to be written on the wire or delivered; the
//! caller owns the socket and performs those actions.

use crate::catalog::{opens_subscription, OutboundMessages};
use crate::codec::{
    decode_event, encode_request, encode_values, interpret, join_tokens, request_values,
    split_tokens, tokens_ok, values, Event,
};
use crate::dispatch::{
    dispatcher_wf, live, route_spec, DispatchError, Dispatcher, DispatcherView, Route, Subscription,
};
use crate::field::{
    decode_field, field_ok, parse_field, parse_int, push_bytes, FieldKind, FieldValue, IBField,
};
use crate::frame::{frame_of, write_frame};
use vstd::prelude::*;
use vstd::utf8::encode_utf8;

verus! {

/// The lowest protocol version this client speaks.
pub const MIN_CLIENT_VER: u32 = 100;

/// The highest protocol version this client speaks.
pub const MAX_CLIENT_VER: u32 = 157;

/// The message version of `StartApi`.
pub const START_API_VERSION: u32 = 2;

/// The least server version to which `StartApi` carries the connection
/// options.
pub const MIN_SERVER_VER_OPTIONS: u32 = 74;

/// The states of a session.
#[derive(Debug, Clone, Copy, PartialEq, Eq, Structural)]
pub enum ConnectionState {
    Disconnected,
    Connecting,
    HandshakeSent,
    VersionNegotiated,
    Ready,
    Draining,
    Closed,
    Failed,
}

/// The inputs that move a session from state to state.
#[derive(Debug, Clone, Copy, PartialEq, Eq, Structural)]
pub enum SessionInput {
    Connect,
    TcpUp,
    HandshakeAccepted,
    HandshakeRefused,
    StartApi,
    Close,
    Drained,
    Fatal,
    Redirect,
}

/// Errors of the session.
#[derive(Debug, Clone, Copy, PartialEq, Eq, Structural)]
pub enum SessionError {
    TransportError,
    HandshakeTimeout,
    VersionMismatch,
    FrameTooLarge,
    Malformed,
    UnknownOpcode,
    AlreadyActive,
    NotReady,
    Backpressure,
    SessionClosed,
    Protocol,
    Redirected,
    Dispatch(DispatchError),
}

/// Whether the session is connected or on its way there.
pub open spec fn is_active(s: ConnectionState) -> bool {
    match s {
        ConnectionState::Connecting | ConnectionState::HandshakeSent
        | ConnectionState::VersionNegotiated | ConnectionState::Ready
        | ConnectionState::Draining => true,
        _ => false,
    }
}

/// The state that input `i` leads to from state `s`.
pub open spec fn transition(s: ConnectionState, i: SessionInput) -> ConnectionState {
    match i {
        SessionInput::Connect => if is_active(s) {
            s
        } else {
            ConnectionState::Connecting
        },
        SessionInput::TcpUp => if s == ConnectionState::Connecting {
            ConnectionState::HandshakeSent
        } else {
            s
        },
        SessionInput::HandshakeAccepted => if s == ConnectionState::HandshakeSent {
            ConnectionState::VersionNegotiated
        } else {
            s
        },
        SessionInput::HandshakeRefused => if s == ConnectionState::HandshakeSent {
            ConnectionState::Failed
        } else {
            s
        },
        SessionInput::StartApi => if s == ConnectionState::VersionNegotiated {
            ConnectionState::Ready
        } else {
            s
        },
        SessionInput::Close => if is_active(s) && s != ConnectionState::Draining {
            ConnectionState::Draining
        } else {
            s
        },
        SessionInput::Drained => if s == ConnectionState::Draining {
            ConnectionState::Closed
        } else {
            s
        },
        SessionInput::Fatal => ConnectionState::Failed,
        SessionInput::Redirect => if s == ConnectionState::HandshakeSent || s
            == ConnectionState::VersionNegotiated || s == ConnectionState::Ready {
            ConnectionState::Connecting
        } else {
            s
        },
    }
}

/// The order of the states along the lifecycle.
pub open spec fn rank(s: ConnectionState) -> int {
    match s {
        ConnectionState::Disconnected => 0,
        ConnectionState::Connecting => 1,
        ConnectionState::HandshakeSent => 2,
        ConnectionState::VersionNegotiated => 3,
        ConnectionState::Ready => 4,
        ConnectionState::Draining => 5,
        ConnectionState::Closed => 6,
        ConnectionState::Failed => 7,
    }
}

/// The inputs that may lead back: a redirect, and a new `connect` on a closed
/// or failed session.
pub open spec fn goes_back(s: ConnectionState, i: SessionInput) -> bool {
    i == SessionInput::Redirect || (i == SessionInput::Connect && !is_active(s) && s
        != ConnectionState::Disconnected)
}

/// Every other input keeps the state or moves it forward.
pub proof fn lemma_transition_forward(s: ConnectionState, i: SessionInput)
    requires
        !goes_back(s, i),
    ensures
        transition(s, i) == s || rank(transition(s, i)) > rank(s),
{
}

/// The states that a session passes through on inputs `ins` from `s`,
/// starting with `s`.
pub open spec fn run_states(s: ConnectionState, ins: Seq<SessionInput>) -> Seq<ConnectionState>
    decreases ins.len(),
{
    if ins.len() == 0 {
        seq![s]
    } else {
        let prev = run_states(s, ins.drop_last());
        prev.push(transition(prev.last(), ins.last()))
    }
}

proof fn lemma_run_ranks(s: ConnectionState, ins: Seq<SessionInput>)
    requires
        forall|k: int|
            0 <= k < ins.len() ==> !goes_back(#[trigger] run_states(s, ins.subrange(0, k)).last(), ins[k]),
    ensures
        run_states(s, ins).len() == ins.len() + 1,
        run_states(s, ins)[0] == s,
        forall|a: int, b: int|
            0 <= a <= b < run_states(s, ins).len() ==> rank(#[trigger] run_states(s, ins)[a]) <= rank(
                #[trigger] run_states(s, ins)[b],
            ),
    decreases ins.len(),
{
    if ins.len() > 0 {
        let pre = ins.drop_last();
        assert forall|k: int| 0 <= k < pre.len() implies !goes_back(
            #[trigger] run_states(s, pre.subrange(0, k)).last(),
            pre[k],
        ) by {
            assert(pre.subrange(0, k) =~= ins.subrange(0, k));
        }
        lemma_run_ranks(s, pre);
        let prev = run_states(s, pre);
        assert(ins.subrange(0, ins.len() - 1) =~= pre);
        assert(!goes_back(run_states(s, ins.subrange(0, ins.len() - 1)).last(), ins[ins.len() - 1]));
        lemma_transition_forward(prev.last(), ins.last());
        let cur = run_states(s, ins);
        assert forall|a: int, b: int| 0 <= a <= b < cur.len() implies rank(#[trigger] cur[a]) <= rank(
            #[trigger] cur[b],
        ) by {
            if b < prev.len() {
                assert(cur[a] == prev[a] && cur[b] == prev[b]);
            } else if a < prev.len() {
                assert(cur[a] == prev[a]);
                assert(rank(prev[a]) <= rank(prev[prev.len() - 1]));
            }
        }
    }
}

/// Along any run without a redirect or a reconnect, a state that is left is
/// never entered again.
pub proof fn lemma_no_revisit(s: ConnectionState, ins: Seq<SessionInput>, a: int, b: int, c: int)
    requires
        forall|k: int|
            0 <= k < ins.len() ==> !goes_back(#[trigger] run_states(s, ins.subrange(0, k)).last(), ins[k]),
        0 <= a <= b <= c <= ins.len(),
        run_states(s, ins)[a] == run_states(s, ins)[c],
    ensures
        run_states(s, ins)[b] == run_states(s, ins)[a],
{
    lemma_run_ranks(s, ins);
    let st = run_states(s, ins);
    assert(rank(st[a]) <= rank(st[b]) && rank(st[b]) <= rank(st[c]));
}

/// The negotiated version, or 0 before there is one.
pub open spec fn version_or_zero(v: Option<u32>) -> u32 {
    match v {
        Some(x) => x,
        None => 0,
    }
}

/// The ASCII text `v100..157`.
pub open spec fn version_range_text() -> Seq<u8> {
    seq![118u8, 49, 48, 48, 46, 46, 49, 53, 55]
}

/// The text of the handshake frame: the version range and, when there are
/// options, a space and the options.
pub open spec fn handshake_text(opts: Seq<char>) -> Seq<u8> {
    version_range_text() + if encode_utf8(opts).len() == 0 {
        seq![]
    } else {
        seq![32u8] + encode_utf8(opts)
    }
}

/// The bytes that open a connection: `API\0`, then the frame of the
/// handshake text.
pub open spec fn handshake_bytes(opts: Seq<char>) -> Seq<u8> {
    seq![65u8, 80, 73, 0] + frame_of(handshake_text(opts))
}

/// The fields of `StartApi` after its message version: the client id, then,
/// when the server is at version 74 or later, the options (possibly empty).
pub open spec fn start_api_fields(client_id: u32, opts: Seq<char>, ver: Option<u32>) -> Seq<
    FieldValue,
> {
    seq![FieldValue::Integer(client_id as int)] + if ver matches Some(v) && v
        >= MIN_SERVER_VER_OPTIONS {
        seq![FieldValue::Text(opts)]
    } else {
        seq![]
    }
}

/// The payload of `StartApi`.
pub open spec fn start_api_payload(client_id: u32, opts: Seq<char>, ver: Option<u32>) -> Seq<u8> {
    encode_values(
        request_values(OutboundMessages::StartApi, None, start_api_fields(client_id, opts, ver)),
    )
}

/// What the server's first payload, made of tokens `ts`, says: its version
/// and the connection time, or why it is refused. The payload holds exactly
/// two tokens.
pub open spec fn handshake_spec(ts: Seq<Seq<u8>>) -> Result<(int, Seq<char>), SessionError> {
    if ts.len() != 2 {
        Err(SessionError::Protocol)
    } else {
        match parse_field(ts[0], FieldKind::Integer) {
            Some(FieldValue::Integer(v)) => if MIN_CLIENT_VER <= v <= MAX_CLIENT_VER {
                match parse_field(ts[1], FieldKind::Text) {
                    Some(FieldValue::Text(t)) => Ok((v, t)),
                    _ => Err(SessionError::Protocol),
                }
            } else {
                Err(SessionError::VersionMismatch)
            },
            _ => Err(SessionError::Protocol),
        }
    }
}

/// Reads the server's reply to the handshake: a version within the client's
/// range and the connection time.
pub fn parse_handshake_reply(p: &[u8]) -> (r: Result<(u32, String), SessionError>)
    ensures
        r matches Ok((v, _)) ==> MIN_CLIENT_VER <= v <= MAX_CLIENT_VER,
        !(p@.len() == 0 || p@.last() == 0) ==> r == Err::<(u32, String), SessionError>(
            SessionError::Protocol,
        ),
        (p@.len() == 0 || p@.last() == 0) ==> forall|ts: Seq<Seq<u8>>|
            tokens_ok(ts) && join_tokens(ts) == p@ ==> match (r, handshake_spec(ts)) {
                (Ok((v, t)), Ok((sv, st))) => v as int == sv && t@ == st,
                (Err(e), Err(se)) => e == se,
                _ => false,
            },
{
    let ts = match split_tokens(p) {
        Some(ts) => ts,
        None => {
            return Err(SessionError::Protocol);
        },
    };
    let ghost tv = crate::codec::token_views(ts@);
    assert forall|t2: Seq<Seq<u8>>| tokens_ok(t2) && join_tokens(t2) == p@ implies t2 == tv by {
        crate::codec::lemma_split_unique(t2, tv);
    }
    if ts.len() != 2 {
        return Err(SessionError::Protocol);
    }
    assert(tv[0] == ts@[0]@ && tv[1] == ts@[1]@);
    let v = match parse_int(ts[0].as_slice()) {
        Some(v) => v,
        None => {
            return Err(SessionError::Protocol);
        },
    };
    if v < MIN_CLIENT_VER as i64 || v > MAX_CLIENT_VER as i64 {
        return Err(SessionError::VersionMismatch);
    }
    match decode_field(ts[1].as_slice(), FieldKind::Text) {
        Some(IBField::IBString(t)) => Ok((v as u32, t)),
        _ => Err(SessionError::Protocol),
    }
}

/// A connected client instance: its configuration, negotiated server
/// version, and the table of outstanding requests.
pub struct EClient {
    host: String,
    port: u16,
    client_id: u32,
    connection_options: String,
    server_version: Option<u32>,
    connection_time: Option<String>,
    managed_accounts: Option<String>,
    connection_state: ConnectionState,
    dispatcher: Dispatcher,
}

impl EClient {
    pub closed spec fn state(&self) -> ConnectionState {
        self.connection_state
    }

    pub closed spec fn spec_server_version(&self) -> Option<u32> {
        self.server_version
    }

    pub closed spec fn spec_connection_time(&self) -> Option<Seq<char>> {
        match self.connection_time {
            Some(t) => Some(t@),
            None => None,
        }
    }

    pub closed spec fn spec_managed_accounts(&self) -> Option<Seq<char>> {
        match self.managed_accounts {
            Some(t) => Some(t@),
            None => None,
        }
    }

    pub closed spec fn spec_host(&self) -> Seq<char> {
        self.host@
    }

    pub closed spec fn spec_port(&self) -> u16 {
        self.port
    }

    pub closed spec fn spec_client_id(&self) -> u32 {
        self.client_id
    }

    pub closed spec fn spec_options(&self) -> Seq<char> {
        self.connection_options@
    }

    pub closed spec fn table(&self) -> DispatcherView {
        self.dispatcher@
    }

    /// The table of a well-formed session is well formed: request ids are
    /// distinct, and each subscription waits for its kind's end-sentinel.
    pub proof fn lemma_table_wf(&self)
        requires
            self.wf(),
        ensures
            dispatcher_wf(self.table()),
    {
    }

    pub closed spec fn wf(&self) -> bool {
        &&& dispatcher_wf(self.dispatcher@)
        &&& (self.server_version matches Some(v) ==> MIN_CLIENT_VER <= v <= MAX_CLIENT_VER)
    }

    /// A disconnected session for `hostname:port` with client id `client_id`.
    pub fn new(hostname: String, port: u16, client_id: u32) -> (r: EClient)
        ensures
            r.wf(),
            r.state() == ConnectionState::Disconnected,
            r.spec_client_id() == client_id,
            r.spec_host() == hostname@,
            r.spec_port() == port,
            r.spec_server_version() is None,
            r.spec_connection_time() is None,
            r.table().next_id == 1,
            r.table().slots.len() == 0,
            r.spec_options().len() == 0,
            r.table().subs.len() == 0,
    {
        EClient {
            host: hostname,
            port,
            client_id,
            connection_options: String::new(),
            server_version: None,
            connection_time: None,
            managed_accounts: None,
            connection_state: ConnectionState::Disconnected,
            dispatcher: Dispatcher::new(),
        }
    }

    /// Sets the options sent in the handshake and in `StartApi`.
    pub fn set_connection_options(&mut self, opts: String)
        requires
            old(self).wf(),
        ensures
            final(self).wf(),
            final(self).spec_options() == opts@,
            final(self).state() == old(self).state(),
            final(self).spec_client_id() == old(self).spec_client_id(),
            final(self).spec_server_version() == old(self).spec_server_version(),
            final(self).table() == old(self).table(),
    {
        self.connection_options = opts;
    }

    /// The current state.
    pub fn connection_state(&self) -> (r: ConnectionState)
        ensures
            r == self.state(),
    {
        self.connection_state
    }

    /// The negotiated server version, once the handshake is done.
    pub fn server_version(&self) -> (r: Option<u32>)
        ensures
            r == self.spec_server_version(),
    {
        self.server_version
    }

    /// The connection time that the server sent.
    pub fn connection_time(&self) -> (r: Option<String>)
        ensures
            r is None <==> self.spec_connection_time() is None,
            r matches Some(t) ==> self.spec_connection_time() == Some(t@),
    {
        match &self.connection_time {
            Some(t) => Some(t.clone()),
            None => None,
        }
    }

    /// The managed-accounts list, once the server has sent it.
    pub fn managed_accounts(&self) -> (r: Option<String>)
        ensures
            r is None <==> self.spec_managed_accounts() is None,
            r matches Some(t) ==> self.spec_managed_accounts() == Some(t@),
    {
        match &self.managed_accounts {
            Some(t) => Some(t.clone()),
            None => None,
        }
    }

    /// The gateway's host name.
    pub fn host(&self) -> (r: String)
        ensures
            r@ == self.spec_host(),
    {
        self.host.clone()
    }

    /// The gateway's port.
    pub fn port(&self) -> (r: u16)
        ensures
            r == self.spec_port(),
    {
        self.port
    }

    pub fn client_id(&self) -> (r: u32)
        ensures
            r == self.spec_client_id(),
    {
        self.client_id
    }

    /// Whether request `id` is outstanding.
    pub fn is_live(&self, id: i64) -> (r: bool)
        requires
            self.wf(),
        ensures
            r == crate::dispatch::live(self.table(), id),
    {
        self.dispatcher.is_live(id)
    }

    /// Starts connecting. Legal on a session that is disconnected, closed or
    /// failed; on one that is connecting or connected it fails with
    /// `AlreadyActive` and changes nothing. The negotiated version is kept
    /// until a new handshake replaces it.
    pub fn connect(&mut self) -> (r: Result<(), SessionError>)
        requires
            old(self).wf(),
        ensures
            final(self).wf(),
            final(self).spec_host() == old(self).spec_host(),
            final(self).spec_port() == old(self).spec_port(),
            final(self).spec_options() == old(self).spec_options(),
            final(self).state() == transition(old(self).state(), SessionInput::Connect),
            final(self).spec_client_id() == old(self).spec_client_id(),
            final(self).table() == old(self).table(),
            is_active(old(self).state()) ==> r == Err::<(), SessionError>(
                SessionError::AlreadyActive,
            ),
            !is_active(old(self).state()) ==> r is Ok,
            r is Err ==> *final(self) == *old(self),
            final(self).spec_server_version() == old(self).spec_server_version(),
            final(self).spec_connection_time() == old(self).spec_connection_time(),
            final(self).spec_managed_accounts() == old(self).spec_managed_accounts(),
    {
        match self.connection_state {
            ConnectionState::Connecting | ConnectionState::HandshakeSent
            | ConnectionState::VersionNegotiated | ConnectionState::Ready
            | ConnectionState::Draining => {
                return Err(SessionError::AlreadyActive);
            },
            _ => {},
        }
        self.connection_state = ConnectionState::Connecting;
        Ok(())
    }

    /// The transport is up: returns the handshake bytes to send and moves to
    /// `HandshakeSent`. Refused with `Protocol` in any state but `Connecting`.
    pub fn on_tcp_up(&mut self) -> (r: Result<Vec<u8>, SessionError>)
        requires
            old(self).wf(),
        ensures
            final(self).wf(),
            final(self).spec_host() == old(self).spec_host(),
            final(self).spec_port() == old(self).spec_port(),
            final(self).spec_options() == old(self).spec_options(),
            r is Ok ==> final(self).state() == transition(old(self).state(), SessionInput::TcpUp),
            r is Err ==> final(self).state() == old(self).state(),
            final(self).spec_client_id() == old(self).spec_client_id(),
            final(self).spec_server_version() == old(self).spec_server_version(),
            final(self).table() == old(self).table(),
            old(self).state() != ConnectionState::Connecting ==> r == Err::<Vec<u8>, SessionError>(
                SessionError::Protocol,
            ),
            old(self).state() == ConnectionState::Connecting && handshake_text(
                old(self).spec_options(),
            ).len() > u32::MAX ==> r == Err::<Vec<u8>, SessionError>(SessionError::FrameTooLarge),
            old(self).state() == ConnectionState::Connecting && handshake_text(
                old(self).spec_options(),
            ).len() <= u32::MAX ==> r is Ok,
            r matches Ok(b) ==> b@ == handshake_bytes(old(self).spec_options()),
    {
        if self.connection_state != ConnectionState::Connecting {
            return Err(SessionError::Protocol);
        }
        let mut text: Vec<u8> = vec![118u8, 49, 48, 48, 46, 46, 49, 53, 55];
        assert(text@ =~= version_range_text());
        let opts = self.connection_options.as_str().as_bytes();
        if opts.len() > 0 {
            text.push(32u8);
            push_bytes(opts, &mut text);
        }
        assert(text@ =~= handshake_text(self.connection_options@));
        if text.len() > 0xffff_ffff {
            return Err(SessionError::FrameTooLarge);
        }
        let f = write_frame(text.as_slice());
        let mut out: Vec<u8> = vec![65u8, 80, 73, 0];
        push_bytes(f.as_slice(), &mut out);
        assert(out@ =~= handshake_bytes(old(self).spec_options()));
        self.connection_state = ConnectionState::HandshakeSent;
        Ok(out)
    }

    /// The server's first payload has arrived. A version within range moves
    /// the session to `VersionNegotiated`; any other reply fails it.
    /// Refused with `Protocol`, changing nothing, unless in `HandshakeSent`.
    pub fn on_handshake_reply(&mut self, p: &[u8]) -> (r: Result<(), SessionError>)
        requires
            old(self).wf(),
        ensures
            final(self).wf(),
            final(self).spec_host() == old(self).spec_host(),
            final(self).spec_port() == old(self).spec_port(),
            final(self).spec_options() == old(self).spec_options(),
            final(self).spec_client_id() == old(self).spec_client_id(),
            old(self).state() != ConnectionState::HandshakeSent ==> r == Err::<(), SessionError>(
                SessionError::Protocol,
            ) && final(self).state() == old(self).state() && final(self).table() == old(self).table(),
            old(self).state() == ConnectionState::HandshakeSent ==> {
                &&& r is Ok ==> final(self).state() == ConnectionState::VersionNegotiated
                    && final(self).table() == old(self).table()
                &&& r is Err ==> final(self).state() == ConnectionState::Failed
                    && final(self).table().subs.len() == 0
                &&& !(p@.len() == 0 || p@.last() == 0) ==> r is Err
                &&& (p@.len() == 0 || p@.last() == 0) ==> forall|ts: Seq<Seq<u8>>|
                    tokens_ok(ts) && join_tokens(ts) == p@ ==> match (r, handshake_spec(ts)) {
                        (Ok(()), Ok((sv, st))) => final(self).spec_server_version() == Some(
                            sv as u32,
                        ) && final(self).spec_connection_time() == Some(st),
                        (Err(e), Err(se)) => e == se,
                        _ => false,
                    }
            },
    {
        if self.connection_state != ConnectionState::HandshakeSent {
            return Err(SessionError::Protocol);
        }
        match parse_handshake_reply(p) {
            Ok((v, t)) => {
                self.server_version = Some(v);
                self.connection_time = Some(t);
                self.connection_state = ConnectionState::VersionNegotiated;
                Ok(())
            },
            Err(e) => {
                self.fail();
                Err(e)
            },
        }
    }

    /// Sends `StartApi`: returns its frame (opcode 71, message version 2, the
    /// client id, and, when the server is at version 74 or later, the
    /// connection options, possibly empty) and moves to `Ready`. Refused with
    /// `NotReady`, changing nothing, unless in `VersionNegotiated`.
    pub fn start_api(&mut self) -> (r: Result<Vec<u8>, SessionError>)
        requires
            old(self).wf(),
        ensures
            final(self).wf(),
            final(self).spec_host() == old(self).spec_host(),
            final(self).spec_port() == old(self).spec_port(),
            final(self).spec_options() == old(self).spec_options(),
            r is Ok ==> final(self).state() == transition(old(self).state(), SessionInput::StartApi),
            r is Err ==> final(self).state() == old(self).state(),
            final(self).spec_client_id() == old(self).spec_client_id(),
            final(self).spec_server_version() == old(self).spec_server_version(),
            final(self).table() == old(self).table(),
            old(self).state() != ConnectionState::VersionNegotiated ==> r == Err::<
                Vec<u8>,
                SessionError,
            >(SessionError::NotReady),
            old(self).state() == ConnectionState::VersionNegotiated ==> if start_api_payload(
                old(self).spec_client_id(),
                old(self).spec_options(),
                old(self).spec_server_version(),
            ).len() <= u32::MAX {
                r matches Ok(b) && b@ == frame_of(
                    start_api_payload(
                        old(self).spec_client_id(),
                        old(self).spec_options(),
                        old(self).spec_server_version(),
                    ),
                )
            } else {
                r == Err::<Vec<u8>, SessionError>(SessionError::FrameTooLarge)
            },
    {
        if self.connection_state != ConnectionState::VersionNegotiated {
            return Err(SessionError::NotReady);
        }
        let mut fields: Vec<IBField> = Vec::new();
        fields.push(IBField::IBInteger(self.client_id as i64));
        let ver: u32 = match self.server_version {
            Some(v) => v,
            None => 0,
        };
        if ver >= MIN_SERVER_VER_OPTIONS {
            fields.push(IBField::IBString(self.connection_options.clone()));
        }
        assert(values(fields@) =~= start_api_fields(
            self.client_id,
            self.connection_options@,
            self.server_version,
        ));
        let p = encode_request(OutboundMessages::StartApi, None, fields.as_slice());
        if p.len() > 0xffff_ffff {
            return Err(SessionError::FrameTooLarge);
        }
        let f = write_frame(p.as_slice());
        self.connection_state = ConnectionState::Ready;
        Ok(f)
    }

    /// Moves to `Failed` from any state and empties the table; returns the ids
    /// of the requests that were outstanding, to be failed with the error.
    pub fn fail(&mut self) -> (r: Vec<i64>)
        requires
            old(self).wf(),
        ensures
            final(self).wf(),
            final(self).spec_host() == old(self).spec_host(),
            final(self).spec_port() == old(self).spec_port(),
            final(self).spec_options() == old(self).spec_options(),
            final(self).state() == transition(old(self).state(), SessionInput::Fatal),
            final(self).spec_client_id() == old(self).spec_client_id(),
            final(self).spec_server_version() == old(self).spec_server_version(),
            final(self).table().subs.len() == 0,
            final(self).table().next_id == old(self).table().next_id,
            r@ == old(self).table().subs.map_values(|s: Subscription| s.id),
    {
        self.connection_state = ConnectionState::Failed;
        self.dispatcher.terminate_all()
    }

    /// The handshake did not complete in time: a session still connecting,
    /// or waiting for the server's version, fails, and the ids of its
    /// outstanding requests are returned. In any other state nothing changes
    /// and `None` is returned.
    pub fn on_handshake_timeout(&mut self) -> (r: Option<Vec<i64>>)
        requires
            old(self).wf(),
        ensures
            final(self).wf(),
            final(self).spec_host() == old(self).spec_host(),
            final(self).spec_port() == old(self).spec_port(),
            final(self).spec_options() == old(self).spec_options(),
            final(self).spec_client_id() == old(self).spec_client_id(),
            (old(self).state() == ConnectionState::Connecting || old(self).state()
                == ConnectionState::HandshakeSent) <==> r is Some,
            r is Some ==> final(self).state() == transition(old(self).state(), SessionInput::Fatal)
                && final(self).table().subs.len() == 0,
            r matches Some(ids) ==> ids@ == old(self).table().subs.map_values(
                |s: Subscription| s.id,
            ),
            r is None ==> final(self).state() == old(self).state() && final(self).table() == old(
                self,
            ).table(),
    {
        match self.connection_state {
            ConnectionState::Connecting | ConnectionState::HandshakeSent => Some(self.fail()),
            _ => None,
        }
    }

    /// Submits a request of kind `kind` with `fields`. A kind that opens a
    /// subscription gets the next request id, written after its message
    /// version, and is registered under it; a kind with a single reply gets a
    /// slot for that reply. Returns the id, if any, and the frame to send.
    pub fn submit(&mut self, kind: OutboundMessages, fields: &[IBField]) -> (r: Result<
        (Option<i64>, Vec<u8>),
        SessionError,
    >)
        requires
            old(self).wf(),
        ensures
            final(self).wf(),
            final(self).spec_host() == old(self).spec_host(),
            final(self).spec_port() == old(self).spec_port(),
            final(self).spec_options() == old(self).spec_options(),
            final(self).state() == old(self).state(),
            final(self).spec_client_id() == old(self).spec_client_id(),
            final(self).spec_server_version() == old(self).spec_server_version(),
            old(self).state() != ConnectionState::Ready ==> r == Err::<
                (Option<i64>, Vec<u8>),
                SessionError,
            >(
                if is_active(old(self).state()) && old(self).state() != ConnectionState::Draining {
                    SessionError::NotReady
                } else {
                    SessionError::SessionClosed
                },
            ),
            old(self).state() == ConnectionState::Ready && !(forall|i: int|
                0 <= i < fields@.len() ==> field_ok(#[trigger] fields@[i]@)) ==> r == Err::<
                (Option<i64>, Vec<u8>),
                SessionError,
            >(SessionError::Malformed),
            r is Err ==> final(self).table() == old(self).table(),
            r matches Ok((id, b)) ==> {
                &&& id == (if opens_subscription(kind) {
                    Some(old(self).table().next_id as i64)
                } else {
                    None::<i64>
                })
                &&& b@ == frame_of(encode_values(request_values(kind, id, values(fields@))))
                &&& opens_subscription(kind) ==> !live(old(self).table(), id->0) && live(
                    final(self).table(),
                    id->0,
                ) && final(self).table().next_id == old(self).table().next_id + 1
                    && final(self).table().subs == old(self).table().subs.push(
                    Subscription {
                        id: id->0,
                        kind,
                        end: crate::catalog::end_sentinel(kind),
                        state: crate::dispatch::SubState::Pending,
                    },
                ) && final(self).table().slots == old(self).table().slots
                &&& !opens_subscription(kind) ==> final(self).table().subs == old(self).table().subs
                    && final(self).table().next_id == old(self).table().next_id
                    && final(self).table().slots == match crate::catalog::slot_kind(kind) {
                    Some(k) => if old(self).table().slots.contains(k) {
                        old(self).table().slots
                    } else {
                        old(self).table().slots.push(k)
                    },
                    None => old(self).table().slots,
                }
            },
            old(self).state() == ConnectionState::Ready && (forall|i: int|
                0 <= i < fields@.len() ==> field_ok(#[trigger] fields@[i]@)) && (opens_subscription(
                kind,
            ) ==> old(self).table().next_id < i64::MAX) && encode_values(
                request_values(
                    kind,
                    if opens_subscription(kind) {
                        Some(old(self).table().next_id as i64)
                    } else {
                        None::<i64>
                    },
                    values(fields@),
                ),
            ).len() <= u32::MAX ==> r is Ok,
    {
        match self.connection_state {
            ConnectionState::Ready => {},
            ConnectionState::Connecting | ConnectionState::HandshakeSent
            | ConnectionState::VersionNegotiated => {
                return Err(SessionError::NotReady);
            },
            _ => {
                return Err(SessionError::SessionClosed);
            },
        }
        let mut i: usize = 0;
        while i < fields.len()
            invariant
                *self == *old(self),
                old(self).wf(),
                old(self).state() == ConnectionState::Ready,
                i <= fields@.len(),
                forall|k: int| 0 <= k < i ==> field_ok(#[trigger] fields@[k]@),
            decreases fields@.len() - i,
        {
            if !fields[i].is_valid() {
                return Err(SessionError::Malformed);
            }
            i = i + 1;
        }
        let opens = kind.opens_subscription();
        if opens && self.dispatcher.next_id() == i64::MAX {
            return Err(SessionError::Dispatch(DispatchError::IdsExhausted));
        }
        let id: Option<i64> = if opens {
            Some(self.dispatcher.next_id())
        } else {
            None
        };
        let p = encode_request(kind, id, fields);
        if p.len() > 0xffff_ffff {
            return Err(SessionError::FrameTooLarge);
        }
        let f = write_frame(p.as_slice());
        if opens {
            let got = self.dispatcher.register(kind);
            assert(got == Ok::<i64, DispatchError>(id->0));
            assert(self.dispatcher@.subs.last().id == id->0);
            assert(live(self.dispatcher@, id->0));
        } else {
            let _ = self.dispatcher.register_slot(kind);
        }
        Ok((id, f))
    }

    /// Cancels request `id`: returns the frame of the cancel message, which
    /// carries the id. The subscription stays until its end-sentinel or an
    /// error arrives, unless its kind has no end-sentinel.
    pub fn cancel(&mut self, id: i64) -> (r: Result<Vec<u8>, SessionError>)
        requires
            old(self).wf(),
        ensures
            final(self).wf(),
            final(self).spec_host() == old(self).spec_host(),
            final(self).spec_port() == old(self).spec_port(),
            final(self).spec_options() == old(self).spec_options(),
            final(self).state() == old(self).state(),
            final(self).spec_client_id() == old(self).spec_client_id(),
            final(self).spec_server_version() == old(self).spec_server_version(),
            old(self).state() != ConnectionState::Ready ==> r == Err::<Vec<u8>, SessionError>(
                SessionError::NotReady,
            ) && final(self).table() == old(self).table(),
            old(self).state() == ConnectionState::Ready && !live(old(self).table(), id) ==> r
                == Err::<Vec<u8>, SessionError>(SessionError::Dispatch(DispatchError::UnknownId)),
            old(self).state() == ConnectionState::Ready && live(old(self).table(), id) ==> {
                let s = old(self).table().subs[crate::dispatch::pos_of(old(self).table(), id)];
                match crate::catalog::cancel_kind(s.kind) {
                    None => r == Err::<Vec<u8>, SessionError>(
                        SessionError::Dispatch(DispatchError::NotCancellable),
                    ),
                    Some(c) => {
                        &&& final(self).table().next_id == old(self).table().next_id
                        &&& final(self).table().slots == old(self).table().slots
                        &&& final(self).table().subs == if s.end is Some {
                            old(self).table().subs.update(
                                crate::dispatch::pos_of(old(self).table(), id),
                                Subscription { state: crate::dispatch::SubState::CancelPending, ..s },
                            )
                        } else {
                            old(self).table().subs.remove(
                                crate::dispatch::pos_of(old(self).table(), id),
                            )
                        }
                        &&& if encode_values(request_values(c, Some(id), seq![])).len()
                            <= u32::MAX {
                            r matches Ok(b) && b@ == frame_of(
                                encode_values(request_values(c, Some(id), seq![])),
                            )
                        } else {
                            r == Err::<Vec<u8>, SessionError>(SessionError::FrameTooLarge)
                        }
                    },
                }
            },
            (r is Err && r != Err::<Vec<u8>, SessionError>(SessionError::FrameTooLarge)) ==> final(self).table()
                == old(self).table(),
    {
        if self.connection_state != ConnectionState::Ready {
            return Err(SessionError::NotReady);
        }
        let c = match self.dispatcher.cancel(id) {
            Ok(c) => c,
            Err(e) => {
                return Err(SessionError::Dispatch(e));
            },
        };
        let empty: Vec<IBField> = Vec::new();
        let p = encode_request(c, Some(id), empty.as_slice());
        assert(values(empty@) =~= seq![]);
        if p.len() > 0xffff_ffff {
            return Err(SessionError::FrameTooLarge);
        }
        Ok(write_frame(p.as_slice()))
    }

    /// A frame has arrived: decodes its payload at the negotiated version and
    /// routes the event. Malformed payloads and unknown opcodes do not stop
    /// the session: they go to the unsolicited sink. A `ManagedAccounts`
    /// message records the accounts list. Refused with `NotReady` outside
    /// `Ready`.
    pub fn on_frame(&mut self, p: &[u8]) -> (r: Result<(Event, Route), SessionError>)
        requires
            old(self).wf(),
        ensures
            final(self).wf(),
            final(self).spec_host() == old(self).spec_host(),
            final(self).spec_port() == old(self).spec_port(),
            final(self).spec_options() == old(self).spec_options(),
            final(self).state() == old(self).state(),
            final(self).spec_client_id() == old(self).spec_client_id(),
            final(self).spec_server_version() == old(self).spec_server_version(),
            old(self).state() != ConnectionState::Ready ==> r == Err::<(Event, Route), SessionError>(
                SessionError::NotReady,
            ),
            old(self).state() == ConnectionState::Ready ==> r is Ok,
            r is Err ==> final(self).table() == old(self).table(),
            r matches Ok((e, rt)) ==> {
                &&& (p@.len() == 0 || p@.last() == 0) ==> forall|ts: Seq<Seq<u8>>|
                    tokens_ok(ts) && join_tokens(ts) == p@ ==> e@ == interpret(
                        p@,
                        ts,
                        version_or_zero(old(self).spec_server_version()),
                    )
                &&& !(p@.len() == 0 || p@.last() == 0) ==> e@ == (
                crate::codec::EventView::Malformed { raw: p@ })
                &&& match e {
                    Event::Message { kind, fields, .. } => if kind
                        == crate::catalog::InboundMessages::ManagedAccounts && fields@.len() > 0
                        && fields@[0] is IBString {
                        final(self).spec_managed_accounts() == Some(fields@[0]->IBString_0@)
                    } else {
                        final(self).spec_managed_accounts() == old(self).spec_managed_accounts()
                    },
                    _ => final(self).spec_managed_accounts() == old(self).spec_managed_accounts(),
                }
                &&& match e {
                    Event::Message { kind, req_id, .. } => (final(self).table(), rt) == route_spec(
                        old(self).table(),
                        kind,
                        req_id,
                    ),
                    _ => rt == Route::Unsolicited && final(self).table() == old(self).table(),
                }
            },
    {
        if self.connection_state != ConnectionState::Ready {
            return Err(SessionError::NotReady);
        }
        let ver: u32 = match self.server_version {
            Some(v) => v,
            None => 0,
        };
        let e = decode_event(p, ver);
        let rt = match &e {
            Event::Message { kind, req_id, fields } => {
                if *kind == crate::catalog::InboundMessages::ManagedAccounts && fields.len() > 0 {
                    match &fields[0] {
                        IBField::IBString(a) => {
                            self.managed_accounts = Some(a.clone());
                        },
                        _ => {},
                    }
                }
                self.dispatcher.route(*kind, *req_id)
            },
            _ => Route::Unsolicited,
        };
        Ok((e, rt))
    }

    /// Closes the session: moves to `Draining` and empties the table,
    /// returning the ids of the outstanding requests, to be failed with
    /// `SessionClosed`. Refused with `SessionClosed` on a session that is not
    /// connected or already draining.
    pub fn close(&mut self) -> (r: Result<Vec<i64>, SessionError>)
        requires
            old(self).wf(),
        ensures
            final(self).wf(),
            final(self).spec_host() == old(self).spec_host(),
            final(self).spec_port() == old(self).spec_port(),
            final(self).spec_options() == old(self).spec_options(),
            final(self).state() == transition(old(self).state(), SessionInput::Close),
            final(self).spec_client_id() == old(self).spec_client_id(),
            final(self).spec_server_version() == old(self).spec_server_version(),
            is_active(old(self).state()) && old(self).state() != ConnectionState::Draining
                <==> r is Ok,
            r is Err ==> r == Err::<Vec<i64>, SessionError>(SessionError::SessionClosed)
                && final(self).table() == old(self).table(),
            r matches Ok(ids) ==> final(self).table().subs.len() == 0 && ids@ == old(
                self,
            ).table().subs.map_values(|s: Subscription| s.id),
    {
        match self.connection_state {
            ConnectionState::Connecting | ConnectionState::HandshakeSent
            | ConnectionState::VersionNegotiated | ConnectionState::Ready => {
                self.connection_state = ConnectionState::Draining;
                Ok(self.dispatcher.terminate_all())
            },
            _ => Err(SessionError::SessionClosed),
        }
    }

    /// Both tasks have stopped and the transport is closed: `Draining` moves
    /// to `Closed`. Returns whether it did.
    pub fn on_drained(&mut self) -> (r: bool)
        requires
            old(self).wf(),
        ensures
            final(self).wf(),
            final(self).spec_host() == old(self).spec_host(),
            final(self).spec_port() == old(self).spec_port(),
            final(self).spec_options() == old(self).spec_options(),
            final(self).state() == transition(old(self).state(), SessionInput::Drained),
            r == (old(self).state() == ConnectionState::Draining),
            final(self).table() == old(self).table(),
            final(self).spec_client_id() == old(self).spec_client_id(),
    {
        if self.connection_state == ConnectionState::Draining {
            self.connection_state = ConnectionState::Closed;
            true
        } else {
            false
        }
    }

    /// The server redirects the session to `host:port`: the session goes back
    /// to `Connecting` with the same client id, the negotiated version is
    /// forgotten, and every outstanding request is failed; their ids are
    /// returned, to be failed with `Redirected`. Refused with `Protocol`
    /// before the handshake is sent or after the session is closing.
    pub fn redirect(&mut self, host: String, port: u16) -> (r: Result<Vec<i64>, SessionError>)
        requires
            old(self).wf(),
        ensures
            final(self).wf(),
            final(self).spec_client_id() == old(self).spec_client_id(),
            r is Ok ==> final(self).state() == transition(old(self).state(), SessionInput::Redirect)
                && final(self).state() == ConnectionState::Connecting
                && final(self).spec_host() == host@ && final(self).spec_port() == port
                && final(self).spec_server_version() is None
                && final(self).table().subs.len() == 0,
            r is Err ==> final(self).state() == old(self).state() && final(self).table() == old(
                self,
            ).table(),
            (old(self).state() == ConnectionState::HandshakeSent || old(self).state()
                == ConnectionState::VersionNegotiated || old(self).state()
                == ConnectionState::Ready) <==> r is Ok,
            r matches Ok(ids) ==> ids@ == old(self).table().subs.map_values(|s: Subscription| s.id),
    {
        match self.connection_state {
            ConnectionState::HandshakeSent | ConnectionState::VersionNegotiated
            | ConnectionState::Ready => {
                self.host = host;
                self.port = port;
                self.server_version = None;
                self.connection_state = ConnectionState::Connecting;
                Ok(self.dispatcher.terminate_all())
            },
            _ => Err(SessionError::Protocol),
        }
    }
}

} // verus!
