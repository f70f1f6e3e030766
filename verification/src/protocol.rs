//! The messages that client and server exchange, as plain values.

use crate::views::views;
use vstd::prelude::*;

verus! {

/// The 128 bits of a message's identifier.
pub type MessageId = u128;

/// The 128 bits of a conversation's identifier.
pub type ConvId = u128;

/// A user as others see them.
#[derive(Debug, Clone)]
pub struct UserBrief {
    pub user_id: i64,
    pub login: String,
}

#[verifier::ext_equal]
pub struct UserBriefView {
    pub user_id: i64,
    pub login: Seq<char>,
}

impl View for UserBrief {
    type V = UserBriefView;

    open spec fn view(&self) -> UserBriefView {
        UserBriefView { user_id: self.user_id, login: self.login@ }
    }
}

/// The reasons for which the server turns a request down.
#[derive(Debug, Clone, Copy, PartialEq, Eq, Structural)]
pub enum ErrorCode {
    NotFriends,
    NotAMember,
    ConversationNotFound,
    AlreadyFriends,
    NoPendingRequest,
    CannotTargetYourself,
    UserNotFound,
    MessageTooLong,
    UnsupportedProtocolVersion,
    InvalidCredentials,
    RegistrationFailed,
    MalformedFrame,
    Internal,
}

/// How the client identifies itself.
#[derive(Debug, Clone)]
pub enum AuthMethod {
    Token { token: String },
    Register { login: String, password: String },
    Login { login: String, password: String },
}

#[verifier::ext_equal]
pub enum AuthMethodView {
    Token { token: Seq<char> },
    Register { login: Seq<char>, password: Seq<char> },
    Login { login: Seq<char>, password: Seq<char> },
}

impl View for AuthMethod {
    type V = AuthMethodView;

    open spec fn view(&self) -> AuthMethodView {
        match *self {
            AuthMethod::Token { token } => AuthMethodView::Token { token: token@ },
            AuthMethod::Register { login, password } => AuthMethodView::Register {
                login: login@,
                password: password@,
            },
            AuthMethod::Login { login, password } => AuthMethodView::Login {
                login: login@,
                password: password@,
            },
        }
    }
}

/// What the client asks of the server.
#[derive(Debug, Clone)]
pub enum ClientMsg {
    Auth { method: AuthMethod },
    PowSolution { nonce: u64 },
    SendMsg { message_id: MessageId, conv_id: ConvId, content: String },
    HistoryReq { conv_id: ConvId },
    MarkRead { message_id: MessageId },
    ResolveDm { peer_user_id: i64 },
    SearchUser { login: String },
    AcceptFriend { target_user_id: i64 },
    FriendReq { target_user_id: i64 },
}

#[verifier::ext_equal]
pub enum ClientMsgView {
    Auth { method: AuthMethodView },
    PowSolution { nonce: u64 },
    SendMsg { message_id: MessageId, conv_id: ConvId, content: Seq<char> },
    HistoryReq { conv_id: ConvId },
    MarkRead { message_id: MessageId },
    ResolveDm { peer_user_id: i64 },
    SearchUser { login: Seq<char> },
    AcceptFriend { target_user_id: i64 },
    FriendReq { target_user_id: i64 },
}

impl View for ClientMsg {
    type V = ClientMsgView;

    open spec fn view(&self) -> ClientMsgView {
        match *self {
            ClientMsg::Auth { method } => ClientMsgView::Auth { method: method@ },
            ClientMsg::PowSolution { nonce } => ClientMsgView::PowSolution { nonce },
            ClientMsg::SendMsg { message_id, conv_id, content } => ClientMsgView::SendMsg {
                message_id,
                conv_id,
                content: content@,
            },
            ClientMsg::HistoryReq { conv_id } => ClientMsgView::HistoryReq { conv_id },
            ClientMsg::MarkRead { message_id } => ClientMsgView::MarkRead { message_id },
            ClientMsg::ResolveDm { peer_user_id } => ClientMsgView::ResolveDm { peer_user_id },
            ClientMsg::SearchUser { login } => ClientMsgView::SearchUser { login: login@ },
            ClientMsg::AcceptFriend { target_user_id } => ClientMsgView::AcceptFriend {
                target_user_id,
            },
            ClientMsg::FriendReq { target_user_id } => ClientMsgView::FriendReq { target_user_id },
        }
    }
}

/// What the server tells the client.
///
/// `text` of an `Error` is how the protocol words the code.
#[derive(Debug, Clone)]
pub enum ServerMsg {
    PowChallenge { challenge: String, difficulty_bits: u32 },
    AuthOk { user_id: i64, token: String, expires_at: i64 },
    AuthFailed { reason: String },
    Error { code: ErrorCode, text: String },
    FriendList { entries: Vec<UserBrief> },
    PendingReqs { entries: Vec<UserBrief> },
    IncomingReq { from: UserBrief },
    FriendAdded { user: UserBrief },
    UserFound { user: UserBrief },
    UserNotFound,
    DmResolved { conv_id: ConvId, peer: UserBrief },
    MsgAck { message_id: MessageId, conv_id: ConvId },
    MsgRead { message_id: MessageId, conv_id: ConvId },
    RecvMsg {
        message_id: MessageId,
        conv_id: ConvId,
        sender_user_id: i64,
        timestamp: i64,
        content: String,
    },
    HistoryMsg {
        message_id: MessageId,
        sender_user_id: i64,
        timestamp: i64,
        content: String,
        is_read: bool,
    },
    HistoryEnd,
    /// A message that the client knows of and has no use for.
    Other,
}

#[verifier::ext_equal]
pub enum ServerMsgView {
    PowChallenge { challenge: Seq<char>, difficulty_bits: u32 },
    AuthOk { user_id: i64, token: Seq<char>, expires_at: i64 },
    AuthFailed { reason: Seq<char> },
    Error { code: ErrorCode, text: Seq<char> },
    FriendList { entries: Seq<UserBriefView> },
    PendingReqs { entries: Seq<UserBriefView> },
    IncomingReq { from: UserBriefView },
    FriendAdded { user: UserBriefView },
    UserFound { user: UserBriefView },
    UserNotFound,
    DmResolved { conv_id: ConvId, peer: UserBriefView },
    MsgAck { message_id: MessageId, conv_id: ConvId },
    MsgRead { message_id: MessageId, conv_id: ConvId },
    RecvMsg {
        message_id: MessageId,
        conv_id: ConvId,
        sender_user_id: i64,
        timestamp: i64,
        content: Seq<char>,
    },
    HistoryMsg {
        message_id: MessageId,
        sender_user_id: i64,
        timestamp: i64,
        content: Seq<char>,
        is_read: bool,
    },
    HistoryEnd,
    Other,
}

impl View for ServerMsg {
    type V = ServerMsgView;

    open spec fn view(&self) -> ServerMsgView {
        match *self {
            ServerMsg::PowChallenge { challenge, difficulty_bits } => ServerMsgView::PowChallenge {
                challenge: challenge@,
                difficulty_bits,
            },
            ServerMsg::AuthOk { user_id, token, expires_at } => ServerMsgView::AuthOk {
                user_id,
                token: token@,
                expires_at,
            },
            ServerMsg::AuthFailed { reason } => ServerMsgView::AuthFailed { reason: reason@ },
            ServerMsg::Error { code, text } => ServerMsgView::Error { code, text: text@ },
            ServerMsg::FriendList { entries } => ServerMsgView::FriendList {
                entries: views(entries@),
            },
            ServerMsg::PendingReqs { entries } => ServerMsgView::PendingReqs {
                entries: views(entries@),
            },
            ServerMsg::IncomingReq { from } => ServerMsgView::IncomingReq { from: from@ },
            ServerMsg::FriendAdded { user } => ServerMsgView::FriendAdded { user: user@ },
            ServerMsg::UserFound { user } => ServerMsgView::UserFound { user: user@ },
            ServerMsg::UserNotFound => ServerMsgView::UserNotFound,
            ServerMsg::DmResolved { conv_id, peer } => ServerMsgView::DmResolved {
                conv_id,
                peer: peer@,
            },
            ServerMsg::MsgAck { message_id, conv_id } => ServerMsgView::MsgAck {
                message_id,
                conv_id,
            },
            ServerMsg::MsgRead { message_id, conv_id } => ServerMsgView::MsgRead {
                message_id,
                conv_id,
            },
            ServerMsg::RecvMsg { message_id, conv_id, sender_user_id, timestamp, content } =>
                ServerMsgView::RecvMsg {
                    message_id,
                    conv_id,
                    sender_user_id,
                    timestamp,
                    content: content@,
                },
            ServerMsg::HistoryMsg { message_id, sender_user_id, timestamp, content, is_read } =>
                ServerMsgView::HistoryMsg {
                    message_id,
                    sender_user_id,
                    timestamp,
                    content: content@,
                    is_read,
                },
            ServerMsg::HistoryEnd => ServerMsgView::HistoryEnd,
            ServerMsg::Other => ServerMsgView::Other,
        }
    }
}

} // verus!
