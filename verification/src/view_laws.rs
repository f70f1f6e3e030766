//! That the views, over which everything is stated, leave nothing of a value
//! out and change nothing of it.

use crate::controller::AppController;
use crate::effects::{Action, ActionView, FriendEntry, MessageEntry, UiUpdate, UiUpdateView};
use crate::framing::LineReader;
use crate::network::{checked_name, NetEvent, NetEventView, NetRequest, NetRequestView, NetStep};
use crate::network::{NetworkTask, Outcome, OutcomeView};
use crate::protocol::{AuthMethod, AuthMethodView, ClientMsg, ClientMsgView, ServerMsg};
use crate::protocol::{ServerMsgView, UserBrief};
use crate::settings::{AppSettings, FileOp, FileOpView};
use crate::state::ChatState;
use crate::types::{ChatMessage, HistoryEntry, UiEvent, UiEventView};
use crate::ui::LogEntry;
use crate::views::{list_views, text_view, views};
use vstd::prelude::*;

verus! {

/// The view of a list has the views of its items, in their order; that of an
/// optional text its characters; that of a map of lists those lists under the
/// same keys.
pub proof fn law_collections_are_seen_whole<K, T: View>(
    s: Seq<T>,
    i: int,
    m: Map<K, Vec<T>>,
    k: K,
    text: Option<String>,
)
    requires
        0 <= i < s.len(),
    ensures
        views(s).len() == s.len(),
        views(s)[i] == s[i]@,
        list_views(m).contains_key(k) <==> m.contains_key(k),
        m.contains_key(k) ==> list_views(m)[k].len() == m[k]@.len(),
        m.contains_key(k) ==> forall|j: int|
            0 <= j < m[k]@.len() ==> #[trigger] list_views(m)[k][j] == m[k]@[j]@,
        text_view(text) is Some <==> text is Some,
        text is Some ==> text_view(text)->0 == text->0@,
{
}

/// Users, messages and lines are seen with every part that they have.
pub proof fn law_records_are_seen_whole(
    u: UserBrief,
    e: HistoryEntry,
    m: ChatMessage,
    f: FriendEntry,
    l: MessageEntry,
    g: LogEntry,
)
    ensures
        u@.user_id == u.user_id && u@.login == u.login@,
        e@.message_id == e.message_id && e@.sender_user_id == e.sender_user_id,
        e@.timestamp == e.timestamp && e@.content == e.content@ && e@.is_read == e.is_read,
        m@.id == m.id && m@.sender_user_id == m.sender_user_id && m@.text == m.text@,
        m@.outgoing == m.outgoing && m@.status == m.status,
        f@.login == f.login@ && f@.user_id == f.user_id && f@.unread == f.unread,
        l@.text == l.text@ && l@.is_outgoing == l.is_outgoing && l@.status == l.status,
        g@.text == g.text@ && g@.color == g.color,
{
}

/// The client, its settings, a connection and a line that is being read are
/// seen with every part that they have.
pub proof fn law_states_are_seen_whole(
    c: AppController,
    s: ChatState,
    a: AppSettings,
    n: NetworkTask,
    r: LineReader,
)
    ensures
        c@.state == c.state@ && c@.sender_slot == c.sender_slot,
        s@.my_user_id == s.my_user_id && s@.active_peer_id == s.active_peer_id,
        s@.active_peer_login == s.active_peer_login@ && s@.active_conv == s.active_conv,
        s@.conv == s.conv@ && s@.server_addr == s.server_addr@ && s@.login == s.login@,
        s@.friends == views(s.friends@) && s@.messages == list_views(s.messages@),
        s@.incoming_reqs == views(s.incoming_reqs@) && s@.unread == s.unread@,
        a@.server_address == text_view(a.server_address) && a@.login == text_view(a.login),
        a@.token == text_view(a.token) && a@.user_id == a.user_id && a@.expires_at == a.expires_at,
        n@.server_addr == n.server_addr@ && n@.login == n.login@ && n@.password == n.password@,
        n@.is_register == n.is_register && n@.phase == n.phase,
        n@.history_conv == n.history_conv && n@.history_buf == views(n.history_buf@),
        r@ == r.held@,
{
}

/// What the client tells the server is seen as it is.
pub proof fn law_client_messages_are_seen_whole(m: ClientMsg, a: AuthMethod)
    ensures
        match a {
            AuthMethod::Token { token } => a@ == (AuthMethodView::Token { token: token@ }),
            AuthMethod::Register { login, password } => a@ == (AuthMethodView::Register {
                login: login@,
                password: password@,
            }),
            AuthMethod::Login { login, password } => a@ == (AuthMethodView::Login {
                login: login@,
                password: password@,
            }),
        },
        match m {
            ClientMsg::Auth { method } => m@ == (ClientMsgView::Auth { method: method@ }),
            ClientMsg::PowSolution { nonce } => m@ == (ClientMsgView::PowSolution { nonce }),
            ClientMsg::SendMsg { message_id, conv_id, content } => m@ == (ClientMsgView::SendMsg {
                message_id,
                conv_id,
                content: content@,
            }),
            ClientMsg::HistoryReq { conv_id } => m@ == (ClientMsgView::HistoryReq { conv_id }),
            ClientMsg::MarkRead { message_id } => m@ == (ClientMsgView::MarkRead { message_id }),
            ClientMsg::ResolveDm { peer_user_id } => m@ == (ClientMsgView::ResolveDm {
                peer_user_id,
            }),
            ClientMsg::SearchUser { login } => m@ == (ClientMsgView::SearchUser { login: login@ }),
            ClientMsg::AcceptFriend { target_user_id } => m@ == (ClientMsgView::AcceptFriend {
                target_user_id,
            }),
            ClientMsg::FriendReq { target_user_id } => m@ == (ClientMsgView::FriendReq {
                target_user_id,
            }),
        },
{
}

/// What the server tells the client is seen as it is.
pub proof fn law_server_messages_are_seen_whole(m: ServerMsg)
    ensures
        match m {
            ServerMsg::PowChallenge { challenge, difficulty_bits } => m@
                == (ServerMsgView::PowChallenge { challenge: challenge@, difficulty_bits }),
            ServerMsg::AuthOk { user_id, token, expires_at } => m@ == (ServerMsgView::AuthOk {
                user_id,
                token: token@,
                expires_at,
            }),
            ServerMsg::AuthFailed { reason } => m@ == (ServerMsgView::AuthFailed {
                reason: reason@,
            }),
            ServerMsg::Error { code, text } => m@ == (ServerMsgView::Error { code, text: text@ }),
            ServerMsg::FriendList { entries } => m@ == (ServerMsgView::FriendList {
                entries: views(entries@),
            }),
            ServerMsg::PendingReqs { entries } => m@ == (ServerMsgView::PendingReqs {
                entries: views(entries@),
            }),
            ServerMsg::IncomingReq { from } => m@ == (ServerMsgView::IncomingReq { from: from@ }),
            ServerMsg::FriendAdded { user } => m@ == (ServerMsgView::FriendAdded { user: user@ }),
            ServerMsg::UserFound { user } => m@ == (ServerMsgView::UserFound { user: user@ }),
            ServerMsg::UserNotFound => m@ == ServerMsgView::UserNotFound,
            ServerMsg::DmResolved { conv_id, peer } => m@ == (ServerMsgView::DmResolved {
                conv_id,
                peer: peer@,
            }),
            ServerMsg::MsgAck { message_id, conv_id } => m@ == (ServerMsgView::MsgAck {
                message_id,
                conv_id,
            }),
            ServerMsg::MsgRead { message_id, conv_id } => m@ == (ServerMsgView::MsgRead {
                message_id,
                conv_id,
            }),
            ServerMsg::RecvMsg { message_id, conv_id, sender_user_id, timestamp, content } => m@
                == (ServerMsgView::RecvMsg {
                message_id,
                conv_id,
                sender_user_id,
                timestamp,
                content: content@,
            }),
            ServerMsg::HistoryMsg { message_id, sender_user_id, timestamp, content, is_read } => m@
                == (ServerMsgView::HistoryMsg {
                message_id,
                sender_user_id,
                timestamp,
                content: content@,
                is_read,
            }),
            ServerMsg::HistoryEnd => m@ == ServerMsgView::HistoryEnd,
            ServerMsg::Other => m@ == ServerMsgView::Other,
        },
{
}

/// What the client asks the program around it to do is seen as it is.
pub proof fn law_actions_are_seen_whole(a: Action, u: UiUpdate, f: FileOp)
    ensures
        match a {
            Action::Show(update) => a@ == ActionView::Show(update@),
            Action::Post(update) => a@ == ActionView::Post(update@),
            Action::PostAfter { millis, update } => a@ == (ActionView::PostAfter {
                millis,
                update: update@,
            }),
            Action::Send(msg) => a@ == ActionView::Send(msg@),
            Action::SaveSession(s) => a@ == ActionView::SaveSession(s@),
            Action::ClearSession => a@ == ActionView::ClearSession,
            Action::CloseSender => a@ == ActionView::CloseSender,
            Action::StartNetwork { server_addr, login, password, is_register } => a@
                == (ActionView::StartNetwork {
                server_addr: server_addr@,
                login: login@,
                password: password@,
                is_register,
            }),
        },
        match u {
            UiUpdate::StatusMessage(s) => u@ == UiUpdateView::StatusMessage(s@),
            UiUpdate::SearchResult(s) => u@ == UiUpdateView::SearchResult(s@),
            UiUpdate::CurrentScreen(n) => u@ == UiUpdateView::CurrentScreen(n),
            UiUpdate::ActivePeerId(n) => u@ == UiUpdateView::ActivePeerId(n),
            UiUpdate::ActivePeerLogin(s) => u@ == UiUpdateView::ActivePeerLogin(s@),
            UiUpdate::ServerAddress(s) => u@ == UiUpdateView::ServerAddress(s@),
            UiUpdate::LoginText(s) => u@ == UiUpdateView::LoginText(s@),
            UiUpdate::PasswordStrength(n) => u@ == UiUpdateView::PasswordStrength(n),
            UiUpdate::PasswordStrengthText(s) => u@ == UiUpdateView::PasswordStrengthText(s@),
            UiUpdate::ScrollPending(b) => u@ == UiUpdateView::ScrollPending(b),
            UiUpdate::FriendsList(lines) => u@ == UiUpdateView::FriendsList(views(lines@)),
            UiUpdate::Messages { peer_id, entries } => u@ == (UiUpdateView::Messages {
                peer_id,
                entries: views(entries@),
            }),
        },
        match f {
            FileOp::Write { create_mode, contents } => f@ == (FileOpView::Write {
                create_mode,
                contents: contents@,
            }),
            FileOp::SetMode(mode) => f@ == FileOpView::SetMode(mode),
        },
{
}

/// What goes on between a connection and the program around it, and what it
/// reports, is seen as it is.
pub proof fn law_steps_are_seen_whole(
    e: NetEvent,
    o: Outcome,
    r: NetRequest,
    s: NetStep,
    u: UiEvent,
    name: Result<(), String>,
)
    ensures
        match e {
            NetEvent::Started => e@ == NetEventView::Started,
            NetEvent::RootsLoaded(n) => e@ == NetEventView::RootsLoaded(n),
            NetEvent::Tcp(outcome) => e@ == NetEventView::Tcp(outcome@),
            NetEvent::Tls(outcome) => e@ == NetEventView::Tls(outcome@),
            NetEvent::TokenLoaded(token) => e@ == NetEventView::TokenLoaded(text_view(token)),
            NetEvent::Written(Ok(_)) => e@ == NetEventView::Written(Ok(())),
            NetEvent::Written(Err(error)) => e@ == NetEventView::Written(Err(error@)),
            NetEvent::Line(line) => e@ == NetEventView::Line(line@),
            NetEvent::ReadFailed(error) => e@ == NetEventView::ReadFailed(error@),
            NetEvent::ReadTimedOut => e@ == NetEventView::ReadTimedOut,
            NetEvent::Decoded(Some(msg)) => e@ == NetEventView::Decoded(Some(msg@)),
            NetEvent::Decoded(None) => e@ == NetEventView::Decoded(None),
            NetEvent::Solved(nonce) => e@ == NetEventView::Solved(nonce),
            NetEvent::Command(Some(cmd)) => e@ == NetEventView::Command(Some(cmd@)),
            NetEvent::Command(None) => e@ == NetEventView::Command(None),
        },
        match o {
            Outcome::Success => o@ == OutcomeView::Success,
            Outcome::Failed(error) => o@ == OutcomeView::Failed(error@),
            Outcome::TimedOut => o@ == OutcomeView::TimedOut,
        },
        match r {
            NetRequest::LoadRoots => r@ == NetRequestView::LoadRoots,
            NetRequest::ConnectTcp { addr } => r@ == (NetRequestView::ConnectTcp { addr: addr@ }),
            NetRequest::ConnectTls { domain } => r@ == (NetRequestView::ConnectTls {
                domain: domain@,
            }),
            NetRequest::LoadToken => r@ == NetRequestView::LoadToken,
            NetRequest::Write(msg) => r@ == NetRequestView::Write(msg@),
            NetRequest::ReadHandshake => r@ == NetRequestView::ReadHandshake,
            NetRequest::Decode(line) => r@ == NetRequestView::Decode(line@),
            NetRequest::SolvePow { challenge, difficulty_bits } => r@ == (NetRequestView::SolvePow {
                challenge: challenge@,
                difficulty_bits,
            }),
            NetRequest::Wait => r@ == NetRequestView::Wait,
            NetRequest::Finish => r@ == NetRequestView::Finish,
        },
        s@.request == s.request@,
        s@.report is Some <==> s.report is Some,
        s.report is Some ==> s@.report->0 == s.report->0@,
        match u {
            UiEvent::Server(msg) => u@ == UiEventView::Server(msg@),
            UiEvent::HistoryBatch { conv_id, entries } => u@ == (UiEventView::HistoryBatch {
                conv_id,
                entries: views(entries@),
            }),
            UiEvent::Disconnected(reason) => u@ == UiEventView::Disconnected(reason@),
        },
        match name {
            Ok(_) => checked_name(name) is Ok,
            Err(error) => checked_name(name) == Err::<(), Seq<char>>(error@),
        },
{
}

} // verus!
