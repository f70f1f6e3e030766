//! The course of a connection: what to do next, given what has come of the
//! last thing done.

use crate::outside::{check_server_name, valid_server_name};
use crate::protocol::{AuthMethod, AuthMethodView, ClientMsg, ClientMsgView, ConvId, ServerMsg};
use crate::protocol::ServerMsgView;
use crate::text::{blank, ends_with_newline, host, host_of, is_blank, trim, trimmed};
use crate::types::{HistoryEntry, HistoryEntryView, UiEvent, UiEventView};
use crate::views::{text_view, views};
use vstd::prelude::*;
use vstd::string::*;

verus! {

broadcast use crate::views::group_views;

/// How long a connection may take to come about, in seconds; once for the
/// transport and once for its encryption.
pub const CONNECT_TIMEOUT_SECS: u64 = 5;

/// How long the server may take for a message before the client is let in, in
/// seconds.
pub const HANDSHAKE_TIMEOUT_SECS: u64 = 15;

/// What a connection is waiting for.
#[derive(Debug, Clone, Copy, PartialEq, Eq, Structural)]
pub enum Phase {
    /// To be started.
    Start,
    /// The trusted root certificates.
    Roots,
    /// The transport.
    Tcp,
    /// The encryption of the transport.
    Tls,
    /// The stored token.
    Token,
    /// The writing of the request to be let in.
    AuthWrite,
    /// A message of the server that lets the client in or asks for more.
    Handshake,
    /// The decoding of such a message.
    HandshakeDecode,
    /// The solution of a puzzle that the server has set.
    Pow,
    /// The writing of that solution.
    PowWrite,
    /// A message of the server or a command of the client.
    Running,
    /// The decoding of a message of the server.
    FrameDecode,
    /// The writing of a command.
    CommandWrite,
    /// Nothing: the connection is over.
    Done,
}

/// What has come of a piece of work that can fail or take too long.
#[derive(Debug, Clone)]
pub enum Outcome {
    Success,
    /// It failed, for the reason given.
    Failed(String),
    TimedOut,
}

#[verifier::ext_equal]
pub enum OutcomeView {
    Success,
    Failed(Seq<char>),
    TimedOut,
}

impl View for Outcome {
    type V = OutcomeView;

    open spec fn view(&self) -> OutcomeView {
        match *self {
            Outcome::Success => OutcomeView::Success,
            Outcome::Failed(e) => OutcomeView::Failed(e@),
            Outcome::TimedOut => OutcomeView::TimedOut,
        }
    }
}

/// What has come of the last request.
#[derive(Debug)]
pub enum NetEvent {
    /// The connection is to be made.
    Started,
    /// This many trusted root certificates were loaded.
    RootsLoaded(usize),
    Tcp(Outcome),
    Tls(Outcome),
    /// The settings file holds this token.
    TokenLoaded(Option<String>),
    /// A message was written, or could not be for the reason given.
    Written(Result<(), String>),
    /// A line was read. It ends with a newline unless the stream has ended.
    Line(String),
    /// No line could be read, for the reason given.
    ReadFailed(String),
    /// No line came in time.
    ReadTimedOut,
    /// What a line means; `None` where it means nothing.
    Decoded(Option<ServerMsg>),
    /// The solution of a puzzle; `None` where the search for it broke off.
    Solved(Option<u64>),
    /// A command of the client; `None` where there will be no more.
    Command(Option<ClientMsg>),
}

#[verifier::ext_equal]
pub enum NetEventView {
    Started,
    RootsLoaded(usize),
    Tcp(OutcomeView),
    Tls(OutcomeView),
    TokenLoaded(Option<Seq<char>>),
    Written(Result<(), Seq<char>>),
    Line(Seq<char>),
    ReadFailed(Seq<char>),
    ReadTimedOut,
    Decoded(Option<ServerMsgView>),
    Solved(Option<u64>),
    Command(Option<ClientMsgView>),
}

impl View for NetEvent {
    type V = NetEventView;

    open spec fn view(&self) -> NetEventView {
        match *self {
            NetEvent::Started => NetEventView::Started,
            NetEvent::RootsLoaded(n) => NetEventView::RootsLoaded(n),
            NetEvent::Tcp(o) => NetEventView::Tcp(o@),
            NetEvent::Tls(o) => NetEventView::Tls(o@),
            NetEvent::TokenLoaded(t) => NetEventView::TokenLoaded(text_view(t)),
            NetEvent::Written(Ok(_)) => NetEventView::Written(Ok(())),
            NetEvent::Written(Err(e)) => NetEventView::Written(Err(e@)),
            NetEvent::Line(l) => NetEventView::Line(l@),
            NetEvent::ReadFailed(e) => NetEventView::ReadFailed(e@),
            NetEvent::ReadTimedOut => NetEventView::ReadTimedOut,
            NetEvent::Decoded(Some(m)) => NetEventView::Decoded(Some(m@)),
            NetEvent::Decoded(None) => NetEventView::Decoded(None),
            NetEvent::Solved(n) => NetEventView::Solved(n),
            NetEvent::Command(Some(m)) => NetEventView::Command(Some(m@)),
            NetEvent::Command(None) => NetEventView::Command(None),
        }
    }
}

/// What to do next.
#[derive(Debug, Clone)]
pub enum NetRequest {
    LoadRoots,
    /// Connect to this address.
    ConnectTcp { addr: String },
    /// Encrypt the connection to the server of this name.
    ConnectTls { domain: String },
    LoadToken,
    /// Write a message to the server.
    Write(ClientMsg),
    /// Read a line, within the time for the handshake.
    ReadHandshake,
    /// Find out what a line means.
    Decode(String),
    SolvePow { challenge: String, difficulty_bits: u32 },
    /// Wait for a line or for a command, whichever comes first.
    Wait,
    /// Close the connection.
    Finish,
}

#[verifier::ext_equal]
pub enum NetRequestView {
    LoadRoots,
    ConnectTcp { addr: Seq<char> },
    ConnectTls { domain: Seq<char> },
    LoadToken,
    Write(ClientMsgView),
    ReadHandshake,
    Decode(Seq<char>),
    SolvePow { challenge: Seq<char>, difficulty_bits: u32 },
    Wait,
    Finish,
}

impl View for NetRequest {
    type V = NetRequestView;

    open spec fn view(&self) -> NetRequestView {
        match *self {
            NetRequest::LoadRoots => NetRequestView::LoadRoots,
            NetRequest::ConnectTcp { addr } => NetRequestView::ConnectTcp { addr: addr@ },
            NetRequest::ConnectTls { domain } => NetRequestView::ConnectTls { domain: domain@ },
            NetRequest::LoadToken => NetRequestView::LoadToken,
            NetRequest::Write(m) => NetRequestView::Write(m@),
            NetRequest::ReadHandshake => NetRequestView::ReadHandshake,
            NetRequest::Decode(l) => NetRequestView::Decode(l@),
            NetRequest::SolvePow { challenge, difficulty_bits } => NetRequestView::SolvePow {
                challenge: challenge@,
                difficulty_bits,
            },
            NetRequest::Wait => NetRequestView::Wait,
            NetRequest::Finish => NetRequestView::Finish,
        }
    }
}

/// A step of a connection: what to report to the client, and then what to do.
#[derive(Debug, Clone)]
pub struct NetStep {
    pub report: Option<UiEvent>,
    pub request: NetRequest,
}

#[verifier::ext_equal]
pub struct NetStepView {
    pub report: Option<UiEventView>,
    pub request: NetRequestView,
}

impl View for NetStep {
    type V = NetStepView;

    open spec fn view(&self) -> NetStepView {
        NetStepView {
            report: match self.report {
                Some(e) => Some(e@),
                None => None,
            },
            request: self.request@,
        }
    }
}

/// A connection.
pub struct NetworkTask {
    pub server_addr: String,
    pub login: String,
    pub password: String,
    pub is_register: bool,
    pub phase: Phase,
    /// The conversation whose history was asked for and has not ended.
    pub history_conv: Option<ConvId>,
    /// What has come of that history, newest message first.
    pub history_buf: Vec<HistoryEntry>,
}

#[verifier::ext_equal]
pub struct NetworkTaskView {
    pub server_addr: Seq<char>,
    pub login: Seq<char>,
    pub password: Seq<char>,
    pub is_register: bool,
    pub phase: Phase,
    pub history_conv: Option<ConvId>,
    pub history_buf: Seq<HistoryEntryView>,
}

impl View for NetworkTask {
    type V = NetworkTaskView;

    open spec fn view(&self) -> NetworkTaskView {
        NetworkTaskView {
            server_addr: self.server_addr@,
            login: self.login@,
            password: self.password@,
            is_register: self.is_register,
            phase: self.phase,
            history_conv: self.history_conv,
            history_buf: views(self.history_buf@),
        }
    }
}

/// Whether an event can follow what a connection in this phase has asked for.
pub open spec fn expects(phase: Phase, event: NetEventView) -> bool {
    match event {
        NetEventView::Started => phase == Phase::Start,
        NetEventView::RootsLoaded(_) => phase == Phase::Roots,
        NetEventView::Tcp(_) => phase == Phase::Tcp,
        NetEventView::Tls(_) => phase == Phase::Tls,
        NetEventView::TokenLoaded(_) => phase == Phase::Token,
        NetEventView::Written(_) => phase == Phase::AuthWrite || phase == Phase::PowWrite || phase
            == Phase::CommandWrite,
        NetEventView::Line(_) => phase == Phase::Handshake || phase == Phase::Running,
        NetEventView::ReadFailed(_) => phase == Phase::Handshake || phase == Phase::Running,
        NetEventView::ReadTimedOut => phase == Phase::Handshake,
        NetEventView::Decoded(_) => phase == Phase::HandshakeDecode || phase == Phase::FrameDecode,
        NetEventView::Solved(_) => phase == Phase::Pow,
        NetEventView::Command(_) => phase == Phase::Running,
    }
}

/// The connection is over, for the reason given.
pub open spec fn over(t: NetworkTaskView, reason: Seq<char>) -> (NetworkTaskView, NetStepView) {
    (
        NetworkTaskView { phase: Phase::Done, ..t },
        NetStepView {
            report: Some(UiEventView::Disconnected(reason)),
            request: NetRequestView::Finish,
        },
    )
}

/// The connection goes on to a phase with a request.
pub open spec fn on_to(t: NetworkTaskView, phase: Phase, request: NetRequestView) -> (
    NetworkTaskView,
    NetStepView,
) {
    (NetworkTaskView { phase, ..t }, NetStepView { report: None, request })
}

/// The client asks to be let in.
pub open spec fn ask_in(t: NetworkTaskView, method: AuthMethodView) -> (
    NetworkTaskView,
    NetStepView,
) {
    on_to(t, Phase::AuthWrite, NetRequestView::Write(ClientMsgView::Auth { method }))
}

/// Whether the connection resumes a stored session.
pub open spec fn is_auto_login(t: NetworkTaskView) -> bool {
    t.password.len() == 0 && !t.is_register
}

/// The connection, once the transport is there and it is known whether the
/// server's name is one.
pub open spec fn after_server_name(t: NetworkTaskView, name: Result<(), Seq<char>>) -> (
    NetworkTaskView,
    NetStepView,
) {
    match name {
        Ok(_) => on_to(t, Phase::Tls, NetRequestView::ConnectTls { domain: host(t.server_addr) }),
        Err(e) => over(t, "Invalid domain: "@ + e),
    }
}

/// The connection, once it is encrypted.
pub open spec fn after_tls(t: NetworkTaskView) -> (NetworkTaskView, NetStepView) {
    if is_auto_login(t) {
        on_to(t, Phase::Token, NetRequestView::LoadToken)
    } else if t.is_register {
        ask_in(t, AuthMethodView::Register { login: t.login, password: t.password })
    } else {
        ask_in(t, AuthMethodView::Login { login: t.login, password: t.password })
    }
}

/// The connection, once a message has been written or not.
pub open spec fn after_write(t: NetworkTaskView, result: Result<(), Seq<char>>) -> (
    NetworkTaskView,
    NetStepView,
) {
    match result {
        Ok(_) => if t.phase == Phase::CommandWrite {
            on_to(t, Phase::Running, NetRequestView::Wait)
        } else {
            on_to(t, Phase::Handshake, NetRequestView::ReadHandshake)
        },
        Err(e) => if t.phase == Phase::PowWrite {
            over(t, "PoW write error: "@ + e)
        } else {
            over(t, "Write error: "@ + e)
        },
    }
}

/// The connection, once a line has been read.
pub open spec fn after_line(t: NetworkTaskView, line: Seq<char>) -> (
    NetworkTaskView,
    NetStepView,
) {
    if line.len() == 0 || line.last() != '\n' {
        over(t, "Connection closed"@)
    } else if t.phase == Phase::Handshake {
        on_to(t, Phase::HandshakeDecode, NetRequestView::Decode(trimmed(line)))
    } else if trimmed(line).len() == 0 {
        on_to(t, Phase::Running, NetRequestView::Wait)
    } else {
        on_to(t, Phase::FrameDecode, NetRequestView::Decode(trimmed(line)))
    }
}

/// The connection, once a message that came before the client was let in has
/// been decoded.
pub open spec fn after_handshake_msg(t: NetworkTaskView, msg: Option<ServerMsgView>) -> (
    NetworkTaskView,
    NetStepView,
) {
    match msg {
        None => over(t, "Malformed handshake frame"@),
        Some(ServerMsgView::PowChallenge { challenge, difficulty_bits }) => on_to(
            t,
            Phase::Pow,
            NetRequestView::SolvePow { challenge, difficulty_bits },
        ),
        Some(ServerMsgView::AuthOk { user_id, token, expires_at }) => (
            NetworkTaskView { phase: Phase::Running, ..t },
            NetStepView {
                report: Some(
                    UiEventView::Server(ServerMsgView::AuthOk { user_id, token, expires_at }),
                ),
                request: NetRequestView::Wait,
            },
        ),
        Some(ServerMsgView::AuthFailed { reason }) => (
            NetworkTaskView { phase: Phase::Done, ..t },
            NetStepView {
                report: Some(UiEventView::Server(ServerMsgView::AuthFailed { reason })),
                request: NetRequestView::Finish,
            },
        ),
        Some(_) => on_to(t, Phase::Handshake, NetRequestView::ReadHandshake),
    }
}

/// The connection, once a message has been decoded.
///
/// The messages of a history that was asked for are held back until it ends
/// and are then reported as one, oldest first.
pub open spec fn after_frame(t: NetworkTaskView, msg: Option<ServerMsgView>) -> (
    NetworkTaskView,
    NetStepView,
) {
    let r = NetworkTaskView { phase: Phase::Running, ..t };
    match msg {
        None => over(t, "Malformed frame from server"@),
        Some(
            ServerMsgView::HistoryMsg { message_id, sender_user_id, timestamp, content, is_read },
        ) => (
            NetworkTaskView {
                history_buf: if t.history_conv is Some {
                    t.history_buf.push(
                        HistoryEntryView {
                            message_id,
                            sender_user_id,
                            timestamp,
                            content,
                            is_read,
                        },
                    )
                } else {
                    t.history_buf
                },
                ..r
            },
            NetStepView { report: None, request: NetRequestView::Wait },
        ),
        Some(ServerMsgView::HistoryEnd) => (
            NetworkTaskView { history_conv: None, history_buf: Seq::empty(), ..r },
            NetStepView {
                report: match t.history_conv {
                    Some(conv_id) => Some(
                        UiEventView::HistoryBatch { conv_id, entries: t.history_buf.reverse() },
                    ),
                    None => None,
                },
                request: NetRequestView::Wait,
            },
        ),
        Some(other) => (
            r,
            NetStepView {
                report: Some(UiEventView::Server(other)),
                request: NetRequestView::Wait,
            },
        ),
    }
}

/// The connection, once a command has come.
pub open spec fn after_command(t: NetworkTaskView, cmd: Option<ClientMsgView>) -> (
    NetworkTaskView,
    NetStepView,
) {
    match cmd {
        Some(ClientMsgView::HistoryReq { conv_id }) => on_to(
            NetworkTaskView {
                history_conv: Some(conv_id),
                history_buf: Seq::empty(),
                ..t
            },
            Phase::CommandWrite,
            NetRequestView::Write(ClientMsgView::HistoryReq { conv_id }),
        ),
        Some(cmd) => on_to(t, Phase::CommandWrite, NetRequestView::Write(cmd)),
        None => over(t, "Disconnected"@),
    }
}

/// The connection after an event, and the step that follows.
pub open spec fn after_net_event(t: NetworkTaskView, event: NetEventView) -> (
    NetworkTaskView,
    NetStepView,
) {
    match event {
        NetEventView::Started => if host(t.server_addr).len() == 0 {
            over(t, "Invalid server address"@)
        } else {
            on_to(t, Phase::Roots, NetRequestView::LoadRoots)
        },
        NetEventView::RootsLoaded(n) => if n == 0 {
            over(t, "No trusted root certificates found"@)
        } else {
            on_to(t, Phase::Tcp, NetRequestView::ConnectTcp { addr: t.server_addr })
        },
        NetEventView::Tcp(OutcomeView::Success) => after_server_name(
            t,
            if valid_server_name(host(t.server_addr)) {
                Ok(())
            } else {
                Err("invalid dns name"@)
            },
        ),
        NetEventView::Tcp(OutcomeView::Failed(e)) => over(t, "TCP failed: "@ + e),
        NetEventView::Tcp(OutcomeView::TimedOut) => over(t, "TCP timeout"@),
        NetEventView::Tls(OutcomeView::Success) => after_tls(t),
        NetEventView::Tls(OutcomeView::Failed(e)) => over(t, "TLS failed: "@ + e),
        NetEventView::Tls(OutcomeView::TimedOut) => over(t, "TLS timeout"@),
        NetEventView::TokenLoaded(token) => match token {
            Some(token) => if blank(token) {
                over(t, "No token for auto-login"@)
            } else {
                ask_in(t, AuthMethodView::Token { token })
            },
            None => over(t, "No token for auto-login"@),
        },
        NetEventView::Written(result) => after_write(t, result),
        NetEventView::Line(line) => after_line(t, line),
        NetEventView::ReadFailed(e) => over(t, "Read error: "@ + e),
        NetEventView::ReadTimedOut => over(t, "Handshake timeout"@),
        NetEventView::Decoded(msg) => if t.phase == Phase::HandshakeDecode {
            after_handshake_msg(t, msg)
        } else {
            after_frame(t, msg)
        },
        NetEventView::Solved(Some(nonce)) => on_to(
            t,
            Phase::PowWrite,
            NetRequestView::Write(ClientMsgView::PowSolution { nonce }),
        ),
        NetEventView::Solved(None) => over(t, "PoW task failed"@),
        NetEventView::Command(cmd) => after_command(t, cmd),
    }
}

fn with_reason(prefix: &str, reason: &str) -> (r: String)
    ensures
        r@ == prefix@ + reason@,
{
    let mut r = prefix.to_owned();
    r.append(reason);
    r
}

/// A name that was checked, as a view.
pub open spec fn checked_name(name: Result<(), String>) -> Result<(), Seq<char>> {
    match name {
        Ok(_) => Ok(()),
        Err(e) => Err(e@),
    }
}

impl NetworkTask {
    /// A connection that is yet to be made. An empty password without a
    /// registration resumes the stored session.
    pub fn new(server_addr: String, login: String, password: String, is_register: bool) -> (r:
        NetworkTask)
        ensures
            r@ == (NetworkTaskView {
                server_addr: server_addr@,
                login: login@,
                password: password@,
                is_register,
                phase: Phase::Start,
                history_conv: None,
                history_buf: Seq::empty(),
            }),
    {
        NetworkTask {
            server_addr,
            login,
            password,
            is_register,
            phase: Phase::Start,
            history_conv: None,
            history_buf: Vec::new(),
        }
    }

    fn end(&mut self, reason: String) -> (r: NetStep)
        ensures
            (final(self)@, r@) == over(old(self)@, reason@),
    {
        self.phase = Phase::Done;
        NetStep { report: Some(UiEvent::Disconnected(reason)), request: NetRequest::Finish }
    }

    fn go_on(&mut self, phase: Phase, request: NetRequest) -> (r: NetStep)
        ensures
            (final(self)@, r@) == on_to(old(self)@, phase, request@),
    {
        self.phase = phase;
        NetStep { report: None, request }
    }

    /// Goes on with an encrypted connection, or ends over a server name that
    /// is none.
    pub fn on_server_name(&mut self, name: Result<(), String>) -> (r: NetStep)
        ensures
            (final(self)@, r@) == after_server_name(old(self)@, checked_name(name)),
    {
        match name {
            Ok(_) => {
                let domain = host_of(self.server_addr.as_str()).to_owned();
                self.go_on(Phase::Tls, NetRequest::ConnectTls { domain })
            },
            Err(e) => self.end(with_reason("Invalid domain: ", e.as_str())),
        }
    }

    fn on_tls(&mut self) -> (r: NetStep)
        ensures
            (final(self)@, r@) == after_tls(old(self)@),
    {
        if self.password.as_str().is_empty() && !self.is_register {
            return self.go_on(Phase::Token, NetRequest::LoadToken);
        }
        let login = self.login.clone();
        let password = self.password.clone();
        let method = if self.is_register {
            AuthMethod::Register { login, password }
        } else {
            AuthMethod::Login { login, password }
        };
        self.go_on(Phase::AuthWrite, NetRequest::Write(ClientMsg::Auth { method }))
    }

    fn on_line(&mut self, line: String) -> (r: NetStep)
        ensures
            (final(self)@, r@) == after_line(old(self)@, line@),
    {
        if !ends_with_newline(line.as_str()) {
            return self.end("Connection closed".to_owned());
        }
        let payload = trim(line.as_str());
        if self.phase == Phase::Handshake {
            self.go_on(Phase::HandshakeDecode, NetRequest::Decode(payload.to_owned()))
        } else if payload.is_empty() {
            self.go_on(Phase::Running, NetRequest::Wait)
        } else {
            self.go_on(Phase::FrameDecode, NetRequest::Decode(payload.to_owned()))
        }
    }

    fn on_handshake_msg(&mut self, msg: ServerMsg) -> (r: NetStep)
        ensures
            (final(self)@, r@) == after_handshake_msg(old(self)@, Some(msg@)),
    {
        match msg {
            ServerMsg::PowChallenge { challenge, difficulty_bits } => self.go_on(
                Phase::Pow,
                NetRequest::SolvePow { challenge, difficulty_bits },
            ),
            ServerMsg::AuthOk { user_id, token, expires_at } => {
                self.phase = Phase::Running;
                NetStep {
                    report: Some(
                        UiEvent::Server(ServerMsg::AuthOk { user_id, token, expires_at }),
                    ),
                    request: NetRequest::Wait,
                }
            },
            ServerMsg::AuthFailed { reason } => {
                self.phase = Phase::Done;
                NetStep {
                    report: Some(UiEvent::Server(ServerMsg::AuthFailed { reason })),
                    request: NetRequest::Finish,
                }
            },
            _ => self.go_on(Phase::Handshake, NetRequest::ReadHandshake),
        }
    }

    /// Takes what has come of a history, oldest message first.
    fn take_history(&mut self) -> (r: Vec<HistoryEntry>)
        ensures
            views(r@) == old(self)@.history_buf.reverse(),
            final(self)@ == (NetworkTaskView { history_buf: Seq::empty(), ..old(self)@ }),
    {
        let ghost all = views(self.history_buf@);
        let n: usize = self.history_buf.len();
        let mut batch: Vec<HistoryEntry> = Vec::new();
        while self.history_buf.len() > 0
            invariant
                n == all.len(),
                batch.len() + self.history_buf.len() == n,
                views(self.history_buf@) == all.take(self.history_buf.len() as int),
                views(batch@) == all.reverse().take(batch.len() as int),
                self@ == (NetworkTaskView { history_buf: self@.history_buf, ..old(self)@ }),
            decreases self.history_buf.len(),
        {
            let ghost buf = self.history_buf@;
            let ghost k = buf.len();
            if let Some(e) = self.history_buf.pop() {
                assert(e@ == all[k - 1]) by {
                    assert(views(buf)[k - 1] == buf[k - 1]@);
                }
                assert(views(self.history_buf@) =~= all.take(k - 1)) by {
                    assert forall|i: int| 0 <= i < k - 1 implies #[trigger] views(
                        self.history_buf@,
                    )[i] == all[i] by {
                        assert(views(buf)[i] == buf[i]@);
                    }
                }
                batch.push(e);
                assert(views(batch@) =~= all.reverse().take(batch.len() as int));
            }
        }
        assert(all.reverse().take(n as int) =~= all.reverse());
        assert(self@.history_buf =~= Seq::empty());
        batch
    }

    fn on_frame(&mut self, msg: ServerMsg) -> (r: NetStep)
        ensures
            (final(self)@, r@) == after_frame(old(self)@, Some(msg@)),
    {
        let ghost t = self@;
        let ghost m = msg@;
        self.phase = Phase::Running;
        let mut report: Option<UiEvent> = None;
        match msg {
            ServerMsg::HistoryMsg { message_id, sender_user_id, timestamp, content, is_read } => {
                if self.history_conv.is_some() {
                    self.history_buf.push(
                        HistoryEntry { message_id, sender_user_id, timestamp, content, is_read },
                    );
                }
            },
            ServerMsg::HistoryEnd => {
                let entries = self.take_history();
                if let Some(conv_id) = self.history_conv {
                    report = Some(UiEvent::HistoryBatch { conv_id, entries });
                }
                self.history_conv = None;
            },
            other => {
                report = Some(UiEvent::Server(other));
            },
        }
        let step = NetStep { report, request: NetRequest::Wait };
        assert(self@ =~= after_frame(t, Some(m)).0);
        assert(step@ =~= after_frame(t, Some(m)).1);
        step
    }

    fn on_command(&mut self, cmd: ClientMsg) -> (r: NetStep)
        ensures
            (final(self)@, r@) == after_command(old(self)@, Some(cmd@)),
    {
        if let ClientMsg::HistoryReq { conv_id } = &cmd {
            self.history_conv = Some(*conv_id);
            self.history_buf.clear();
        }
        self.go_on(Phase::CommandWrite, NetRequest::Write(cmd))
    }

    /// Whether an event can follow what this connection has asked for.
    pub fn expects(&self, event: &NetEvent) -> (r: bool)
        ensures
            r == expects(self.phase, event@),
    {
        match event {
            NetEvent::Started => self.phase == Phase::Start,
            NetEvent::RootsLoaded(_) => self.phase == Phase::Roots,
            NetEvent::Tcp(_) => self.phase == Phase::Tcp,
            NetEvent::Tls(_) => self.phase == Phase::Tls,
            NetEvent::TokenLoaded(_) => self.phase == Phase::Token,
            NetEvent::Written(_) => self.phase == Phase::AuthWrite || self.phase
                == Phase::PowWrite || self.phase == Phase::CommandWrite,
            NetEvent::Line(_) => self.phase == Phase::Handshake || self.phase == Phase::Running,
            NetEvent::ReadFailed(_) => self.phase == Phase::Handshake || self.phase
                == Phase::Running,
            NetEvent::ReadTimedOut => self.phase == Phase::Handshake,
            NetEvent::Decoded(_) => self.phase == Phase::HandshakeDecode || self.phase
                == Phase::FrameDecode,
            NetEvent::Solved(_) => self.phase == Phase::Pow,
            NetEvent::Command(_) => self.phase == Phase::Running,
        }
    }
}

/// Takes in what has come of the last request and says what follows.
pub fn network_task(task: &mut NetworkTask, event: NetEvent) -> (r: NetStep)
    requires
        expects(old(task).phase, event@),
    ensures
        (final(task)@, r@) == after_net_event(old(task)@, event@),
{
    match event {
        NetEvent::Started => {
            if host_of(task.server_addr.as_str()).is_empty() {
                task.end("Invalid server address".to_owned())
            } else {
                task.go_on(Phase::Roots, NetRequest::LoadRoots)
            }
        },
        NetEvent::RootsLoaded(added) => {
            if added == 0 {
                task.end("No trusted root certificates found".to_owned())
            } else {
                let addr = task.server_addr.clone();
                task.go_on(Phase::Tcp, NetRequest::ConnectTcp { addr })
            }
        },
        NetEvent::Tcp(outcome) => match outcome {
            Outcome::Success => {
                let name = check_server_name(host_of(task.server_addr.as_str()));
                task.on_server_name(name)
            },
            Outcome::Failed(e) => task.end(with_reason("TCP failed: ", e.as_str())),
            Outcome::TimedOut => task.end("TCP timeout".to_owned()),
        },
        NetEvent::Tls(outcome) => match outcome {
            Outcome::Success => task.on_tls(),
            Outcome::Failed(e) => task.end(with_reason("TLS failed: ", e.as_str())),
            Outcome::TimedOut => task.end("TLS timeout".to_owned()),
        },
        NetEvent::TokenLoaded(token) => {
            if let Some(token) = token {
                if !is_blank(token.as_str()) {
                    return task.go_on(
                        Phase::AuthWrite,
                        NetRequest::Write(
                            ClientMsg::Auth { method: AuthMethod::Token { token } },
                        ),
                    );
                }
            }
            task.end("No token for auto-login".to_owned())
        },
        NetEvent::Written(result) => match result {
            Ok(_) => {
                if task.phase == Phase::CommandWrite {
                    task.go_on(Phase::Running, NetRequest::Wait)
                } else {
                    task.go_on(Phase::Handshake, NetRequest::ReadHandshake)
                }
            },
            Err(e) => {
                if task.phase == Phase::PowWrite {
                    task.end(with_reason("PoW write error: ", e.as_str()))
                } else {
                    task.end(with_reason("Write error: ", e.as_str()))
                }
            },
        },
        NetEvent::Line(line) => task.on_line(line),
        NetEvent::ReadFailed(e) => task.end(with_reason("Read error: ", e.as_str())),
        NetEvent::ReadTimedOut => task.end("Handshake timeout".to_owned()),
        NetEvent::Decoded(msg) => match msg {
            Some(msg) => {
                if task.phase == Phase::HandshakeDecode {
                    task.on_handshake_msg(msg)
                } else {
                    task.on_frame(msg)
                }
            },
            None => {
                if task.phase == Phase::HandshakeDecode {
                    task.end("Malformed handshake frame".to_owned())
                } else {
                    task.end("Malformed frame from server".to_owned())
                }
            },
        },
        NetEvent::Solved(solution) => match solution {
            Some(nonce) => task.go_on(
                Phase::PowWrite,
                NetRequest::Write(ClientMsg::PowSolution { nonce }),
            ),
            None => task.end("PoW task failed".to_owned()),
        },
        NetEvent::Command(cmd) => match cmd {
            Some(cmd) => task.on_command(cmd),
            None => task.end("Disconnected".to_owned()),
        },
    }
}

} // verus!
