//! What every event of a connection leads to, said of what came of the last
//! request and of the request and the report that follow.

use crate::network::{after_net_event, after_server_name, expects, NetEventView, NetRequestView};
use crate::network::{NetworkTaskView, OutcomeView, Phase};
use crate::outside::valid_server_name;
use crate::protocol::{AuthMethodView, ClientMsgView, ServerMsgView};
use crate::text::{blank, host, trimmed};
use crate::types::{HistoryEntryView, UiEventView};
use vstd::prelude::*;

verus! {

/// The event ends the connection: the reason is reported as a disconnection
/// and the connection is closed.
pub open spec fn ends_with(t: NetworkTaskView, event: NetEventView, reason: Seq<char>) -> bool {
    let (u, step) = after_net_event(t, event);
    &&& u == (NetworkTaskView { phase: Phase::Done, ..t })
    &&& step.report == Some(UiEventView::Disconnected(reason))
    &&& step.request == NetRequestView::Finish
}

/// The event leads to a request in a new phase, without a report and with
/// nothing else of the connection changed.
pub open spec fn leads_to(
    t: NetworkTaskView,
    event: NetEventView,
    phase: Phase,
    request: NetRequestView,
) -> bool {
    let (u, step) = after_net_event(t, event);
    &&& u == (NetworkTaskView { phase, ..t })
    &&& step.report is None
    &&& step.request == request
}

/// A connection begins with the root certificates, unless its address is empty
/// or begins with a colon.
pub proof fn law_begin(t: NetworkTaskView)
    ensures
        t.server_addr.len() == 0 || t.server_addr[0] == ':' ==> ends_with(
            t,
            NetEventView::Started,
            "Invalid server address"@,
        ),
        t.server_addr.len() > 0 && t.server_addr[0] != ':' ==> leads_to(
            t,
            NetEventView::Started,
            Phase::Roots,
            NetRequestView::LoadRoots,
        ),
{
    crate::text::law_host_ends_at_the_first_colon(t.server_addr);
}

/// With any root certificate the client connects to the address as given;
/// without one it does not.
pub proof fn law_roots(t: NetworkTaskView, n: usize)
    ensures
        n == 0 ==> ends_with(
            t,
            NetEventView::RootsLoaded(n),
            "No trusted root certificates found"@,
        ),
        n > 0 ==> leads_to(
            t,
            NetEventView::RootsLoaded(n),
            Phase::Tcp,
            NetRequestView::ConnectTcp { addr: t.server_addr },
        ),
{
}

/// Over a transport the client encrypts for the host of the address, if that
/// can name a server; a transport that failed or took too long ends the
/// connection with its reason.
pub proof fn law_transport(t: NetworkTaskView, error: Seq<char>)
    ensures
        valid_server_name(host(t.server_addr)) ==> leads_to(
            t,
            NetEventView::Tcp(OutcomeView::Success),
            Phase::Tls,
            NetRequestView::ConnectTls { domain: host(t.server_addr) },
        ),
        !valid_server_name(host(t.server_addr)) ==> ends_with(
            t,
            NetEventView::Tcp(OutcomeView::Success),
            "Invalid domain: "@ + "invalid dns name"@,
        ),
        ends_with(t, NetEventView::Tcp(OutcomeView::Failed(error)), "TCP failed: "@ + error),
        ends_with(t, NetEventView::Tcp(OutcomeView::TimedOut), "TCP timeout"@),
{
}

/// A server name that was found to be one leads to encryption for the host of
/// the address; one that was not ends the connection with the reason.
pub proof fn law_checked_name_decides(t: NetworkTaskView, error: Seq<char>)
    ensures
        ({
            let (u, step) = after_server_name(t, Ok(()));
            &&& u == (NetworkTaskView { phase: Phase::Tls, ..t })
            &&& step.report is None
            &&& step.request == (NetRequestView::ConnectTls { domain: host(t.server_addr) })
        }),
        ({
            let (u, step) = after_server_name(t, Err(error));
            &&& u == (NetworkTaskView { phase: Phase::Done, ..t })
            &&& step.report == Some(UiEventView::Disconnected("Invalid domain: "@ + error))
            &&& step.request == NetRequestView::Finish
        }),
{
}

/// Over an encrypted connection the client registers or logs in with the login
/// and the password as given; for a login without a password it looks for the
/// stored token. Encryption that failed or took too long ends the connection
/// with its reason.
pub proof fn law_encryption(t: NetworkTaskView, error: Seq<char>)
    ensures
        ({
            let done = NetEventView::Tls(OutcomeView::Success);
            &&& t.is_register ==> leads_to(
                t,
                done,
                Phase::AuthWrite,
                NetRequestView::Write(
                    ClientMsgView::Auth {
                        method: AuthMethodView::Register { login: t.login, password: t.password },
                    },
                ),
            )
            &&& !t.is_register && t.password.len() > 0 ==> leads_to(
                t,
                done,
                Phase::AuthWrite,
                NetRequestView::Write(
                    ClientMsgView::Auth {
                        method: AuthMethodView::Login { login: t.login, password: t.password },
                    },
                ),
            )
            &&& !t.is_register && t.password.len() == 0 ==> leads_to(
                t,
                done,
                Phase::Token,
                NetRequestView::LoadToken,
            )
        }),
        ends_with(t, NetEventView::Tls(OutcomeView::Failed(error)), "TLS failed: "@ + error),
        ends_with(t, NetEventView::Tls(OutcomeView::TimedOut), "TLS timeout"@),
{
}

/// A stored token is sent as it is; where there is none, or nothing but white
/// space, the connection ends.
pub proof fn law_stored_token(t: NetworkTaskView, token: Seq<char>)
    ensures
        !blank(token) ==> leads_to(
            t,
            NetEventView::TokenLoaded(Some(token)),
            Phase::AuthWrite,
            NetRequestView::Write(
                ClientMsgView::Auth { method: AuthMethodView::Token { token } },
            ),
        ),
        blank(token) ==> ends_with(
            t,
            NetEventView::TokenLoaded(Some(token)),
            "No token for auto-login"@,
        ),
        ends_with(t, NetEventView::TokenLoaded(None), "No token for auto-login"@),
{
}

/// After a message was written the client waits: for the server's answer before
/// it is let in, and for whatever comes afterwards. One that could not be
/// written ends the connection with the reason.
pub proof fn law_written(t: NetworkTaskView, error: Seq<char>)
    requires
        t.phase == Phase::AuthWrite || t.phase == Phase::PowWrite || t.phase
            == Phase::CommandWrite,
    ensures
        t.phase != Phase::CommandWrite ==> leads_to(
            t,
            NetEventView::Written(Ok(())),
            Phase::Handshake,
            NetRequestView::ReadHandshake,
        ),
        t.phase == Phase::CommandWrite ==> leads_to(
            t,
            NetEventView::Written(Ok(())),
            Phase::Running,
            NetRequestView::Wait,
        ),
        t.phase == Phase::PowWrite ==> ends_with(
            t,
            NetEventView::Written(Err(error)),
            "PoW write error: "@ + error,
        ),
        t.phase != Phase::PowWrite ==> ends_with(
            t,
            NetEventView::Written(Err(error)),
            "Write error: "@ + error,
        ),
{
}

/// A whole line is decoded without the white space around it; once the client
/// was let in, a line of nothing but white space is passed over. A line that
/// was cut off, one that could not be read and, before the client was let in,
/// one that did not come in time end the connection.
pub proof fn law_line(t: NetworkTaskView, line: Seq<char>, error: Seq<char>)
    requires
        t.phase == Phase::Handshake || t.phase == Phase::Running,
    ensures
        line.len() == 0 || line.last() != '\n' ==> ends_with(
            t,
            NetEventView::Line(line),
            "Connection closed"@,
        ),
        line.len() > 0 && line.last() == '\n' && t.phase == Phase::Handshake ==> leads_to(
            t,
            NetEventView::Line(line),
            Phase::HandshakeDecode,
            NetRequestView::Decode(trimmed(line)),
        ),
        line.len() > 0 && line.last() == '\n' && t.phase == Phase::Running && blank(line)
            ==> leads_to(t, NetEventView::Line(line), Phase::Running, NetRequestView::Wait),
        line.len() > 0 && line.last() == '\n' && t.phase == Phase::Running && !blank(line)
            ==> leads_to(
            t,
            NetEventView::Line(line),
            Phase::FrameDecode,
            NetRequestView::Decode(trimmed(line)),
        ),
        ends_with(t, NetEventView::ReadFailed(error), "Read error: "@ + error),
        t.phase == Phase::Handshake ==> ends_with(
            t,
            NetEventView::ReadTimedOut,
            "Handshake timeout"@,
        ),
{
    crate::text::law_blank_trims_to_nothing(line);
}

/// Before the client is let in, a puzzle of the server is solved as it was set.
/// Consent lets the client in and is reported with all that it says; refusal is
/// reported with its reason and closes the connection. Every other message is
/// passed over, and what is no message ends the connection.
pub proof fn law_handshake_message(t: NetworkTaskView, msg: ServerMsgView)
    requires
        t.phase == Phase::HandshakeDecode,
    ensures
        ({
            let event = NetEventView::Decoded(Some(msg));
            let (u, step) = after_net_event(t, event);
            match msg {
                ServerMsgView::PowChallenge { challenge, difficulty_bits } => leads_to(
                    t,
                    event,
                    Phase::Pow,
                    NetRequestView::SolvePow { challenge, difficulty_bits },
                ),
                ServerMsgView::AuthOk { .. } => {
                    &&& u == (NetworkTaskView { phase: Phase::Running, ..t })
                    &&& step.report == Some(UiEventView::Server(msg))
                    &&& step.request == NetRequestView::Wait
                },
                ServerMsgView::AuthFailed { .. } => {
                    &&& u == (NetworkTaskView { phase: Phase::Done, ..t })
                    &&& step.report == Some(UiEventView::Server(msg))
                    &&& step.request == NetRequestView::Finish
                },
                _ => leads_to(t, event, Phase::Handshake, NetRequestView::ReadHandshake),
            }
        }),
        ends_with(t, NetEventView::Decoded(None), "Malformed handshake frame"@),
{
}

/// The solution that was found is the one that is sent.
pub proof fn law_solution_is_sent(t: NetworkTaskView, nonce: u64)
    requires
        t.phase == Phase::Pow,
    ensures
        leads_to(
            t,
            NetEventView::Solved(Some(nonce)),
            Phase::PowWrite,
            NetRequestView::Write(ClientMsgView::PowSolution { nonce }),
        ),
        ends_with(t, NetEventView::Solved(None), "PoW task failed"@),
{
}

/// Once the client was let in, every message of the server is reported as it
/// is, but for those of a history; the connection stays as it was and waits.
pub proof fn law_messages_are_reported(t: NetworkTaskView, msg: ServerMsgView)
    requires
        t.phase == Phase::FrameDecode,
        !(msg is HistoryMsg),
        !(msg is HistoryEnd),
    ensures
        ({
            let (u, step) = after_net_event(t, NetEventView::Decoded(Some(msg)));
            &&& u == (NetworkTaskView { phase: Phase::Running, ..t })
            &&& step.report == Some(UiEventView::Server(msg))
            &&& step.request == NetRequestView::Wait
        }),
        ends_with(t, NetEventView::Decoded(None), "Malformed frame from server"@),
{
}

/// A message of a history that was asked for is held back, behind those that
/// came before it and as it came; one of a history that nobody asked for is
/// dropped.
pub proof fn law_history_message_is_held_back(t: NetworkTaskView, e: HistoryEntryView)
    requires
        t.phase == Phase::FrameDecode,
    ensures
        ({
            let msg = ServerMsgView::HistoryMsg {
                message_id: e.message_id,
                sender_user_id: e.sender_user_id,
                timestamp: e.timestamp,
                content: e.content,
                is_read: e.is_read,
            };
            let (u, step) = after_net_event(t, NetEventView::Decoded(Some(msg)));
            &&& u == (NetworkTaskView {
                phase: Phase::Running,
                history_buf: u.history_buf,
                ..t
            })
            &&& t.history_conv is Some ==> u.history_buf == t.history_buf.push(e)
            &&& t.history_conv is None ==> u.history_buf == t.history_buf
            &&& step.report is None
            &&& step.request == NetRequestView::Wait
        }),
{
}

/// The end of a history that was asked for reports all that was held back of
/// it, last first, for the conversation that it was asked for. Then nothing is
/// held back and no history is awaited.
pub proof fn law_history_end_reports(t: NetworkTaskView)
    requires
        t.phase == Phase::FrameDecode,
    ensures
        ({
            let (u, step) = after_net_event(
                t,
                NetEventView::Decoded(Some(ServerMsgView::HistoryEnd)),
            );
            let n = t.history_buf.len();
            &&& u == (NetworkTaskView {
                phase: Phase::Running,
                history_conv: None,
                history_buf: Seq::empty(),
                ..t
            })
            &&& step.request == NetRequestView::Wait
            &&& t.history_conv is None ==> step.report is None
            &&& t.history_conv is Some ==> {
                &&& step.report matches Some(UiEventView::HistoryBatch { conv_id, entries })
                &&& conv_id == t.history_conv->0
                &&& entries.len() == n
                &&& forall|i: int|
                    0 <= i < n ==> #[trigger] entries[i] == t.history_buf[n - 1 - i]
            }
        }),
{
}

/// Every command is written as it is. One that asks for a history makes the
/// connection await that history from its beginning; others leave what it
/// awaits as it was. When there will be no more commands, the connection ends.
pub proof fn law_command(t: NetworkTaskView, cmd: ClientMsgView)
    requires
        t.phase == Phase::Running,
    ensures
        ({
            let (u, step) = after_net_event(t, NetEventView::Command(Some(cmd)));
            &&& step.report is None
            &&& step.request == NetRequestView::Write(cmd)
            &&& u == (NetworkTaskView {
                phase: Phase::CommandWrite,
                history_conv: u.history_conv,
                history_buf: u.history_buf,
                ..t
            })
            &&& cmd matches ClientMsgView::HistoryReq { conv_id } ==> u.history_conv == Some(conv_id)
                && u.history_buf.len() == 0
            &&& !(cmd is HistoryReq) ==> u.history_conv == t.history_conv && u.history_buf
                == t.history_buf
        }),
        ends_with(t, NetEventView::Command(None), "Disconnected"@),
{
}

/// Whether an event is an answer to a request.
pub open spec fn answers(request: NetRequestView, event: NetEventView) -> bool {
    match request {
        NetRequestView::LoadRoots => event is RootsLoaded,
        NetRequestView::ConnectTcp { .. } => event is Tcp,
        NetRequestView::ConnectTls { .. } => event is Tls,
        NetRequestView::LoadToken => event is TokenLoaded,
        NetRequestView::Write(_) => event is Written,
        NetRequestView::ReadHandshake => event is Line || event is ReadFailed || event
            is ReadTimedOut,
        NetRequestView::Decode(_) => event is Decoded,
        NetRequestView::SolvePow { .. } => event is Solved,
        NetRequestView::Wait => event is Line || event is ReadFailed || event is Command,
        NetRequestView::Finish => false,
    }
}

/// After every step exactly the answers to its request can follow, and a
/// connection that was just made can only be started.
pub proof fn law_answers_are_expected(t: NetworkTaskView, event: NetEventView, next: NetEventView)
    requires
        expects(t.phase, event),
    ensures
        ({
            let (u, step) = after_net_event(t, event);
            expects(u.phase, next) <==> answers(step.request, next)
        }),
        expects(Phase::Start, next) <==> next is Started,
{
}

/// A connection from its start to the point at which the client may be let in,
/// when all goes well: the sequence of its requests is fixed, and the server is
/// asked with what was given.
pub proof fn law_course_of_a_login(t: NetworkTaskView, roots: usize, line: Seq<char>)
    requires
        t.phase == Phase::Start,
        t.server_addr.len() > 0,
        t.server_addr[0] != ':',
        roots > 0,
        valid_server_name(host(t.server_addr)),
        t.password.len() > 0,
        line.len() > 0,
        line.last() == '\n',
    ensures
        ({
            let (t1, s1) = after_net_event(t, NetEventView::Started);
            let (t2, s2) = after_net_event(t1, NetEventView::RootsLoaded(roots));
            let (t3, s3) = after_net_event(t2, NetEventView::Tcp(OutcomeView::Success));
            let (t4, s4) = after_net_event(t3, NetEventView::Tls(OutcomeView::Success));
            let (t5, s5) = after_net_event(t4, NetEventView::Written(Ok(())));
            let (t6, s6) = after_net_event(t5, NetEventView::Line(line));
            &&& s1.request == NetRequestView::LoadRoots
            &&& s2.request == (NetRequestView::ConnectTcp { addr: t.server_addr })
            &&& s3.request == (NetRequestView::ConnectTls { domain: host(t.server_addr) })
            &&& s4.request == NetRequestView::Write(
                ClientMsgView::Auth {
                    method: if t.is_register {
                        AuthMethodView::Register { login: t.login, password: t.password }
                    } else {
                        AuthMethodView::Login { login: t.login, password: t.password }
                    },
                },
            )
            &&& s5.request == NetRequestView::ReadHandshake
            &&& s6.request == NetRequestView::Decode(trimmed(line))
            &&& t6 == (NetworkTaskView { phase: Phase::HandshakeDecode, ..t })
        }),
{
    law_begin(t);
}

} // verus!
