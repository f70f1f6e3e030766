//! The reactions of the client to its user and to the network.

use crate::effects::{Action, ActionView, UiUpdate, UiUpdateView};
use crate::outside::{new_message_id, password_score, random_id, rated_chars, score_in};
use crate::outside::{score_limit, timestamp_now};
use crate::protocol::{ClientMsg, ClientMsgView, ConvId, ErrorCode, MessageId, ServerMsg};
use crate::protocol::{ServerMsgView, UserBrief, UserBriefView};
use crate::settings::{save_session, AppSettings, AppSettingsView};
use crate::state::{forget_conversation, is_listed, lists, lookup, others, remove_user};
use crate::state::{request_scroll, scroll_actions, sync_friends, sync_messages};
use crate::state::{sync_messages_now, unread_message_ids, ChatState, ChatStateView};
use crate::text::{blank, decimal, decimal_text, is_blank, joined};
use crate::types::{ChatMessage, ChatMessageView, DeliveryStatus, HistoryEntry, HistoryEntryView};
use crate::types::{UiEvent, UiEventView};
use crate::views::{text_view, views};
use vstd::prelude::*;
use vstd::string::*;
use vstd::utf8::encode_utf8;

verus! {

broadcast use {crate::views::group_views, vstd::std_specs::hash::group_hash_axioms};

/// The client: its state, and whether it holds a channel to a network task.
pub struct AppController {
    pub state: ChatState,
    pub sender_slot: bool,
}

#[verifier::ext_equal]
pub struct AppControllerView {
    pub state: ChatStateView,
    pub sender_slot: bool,
}

impl View for AppController {
    type V = AppControllerView;

    open spec fn view(&self) -> AppControllerView {
        AppControllerView { state: self.state@, sender_slot: self.sender_slot }
    }
}

/// The handing of messages to the network task, which takes place only over an
/// open channel.
pub open spec fn sends(open: bool, msgs: Seq<ClientMsgView>) -> Seq<ActionView> {
    if open {
        msgs.map_values(|m: ClientMsgView| ActionView::Send(m))
    } else {
        Seq::empty()
    }
}

/// The messages that tell the server that `ids` were read.
pub open spec fn marks(ids: Seq<MessageId>) -> Seq<ClientMsgView> {
    ids.map_values(|id: MessageId| ClientMsgView::MarkRead { message_id: id })
}

/// A message of the history as the cache keeps it, for the user `me`.
pub open spec fn stored(me: i64, e: HistoryEntryView) -> ChatMessageView {
    ChatMessageView {
        id: e.message_id,
        sender_user_id: e.sender_user_id,
        text: e.content,
        outgoing: e.sender_user_id == me,
        status: if e.is_read {
            DeliveryStatus::Read
        } else if e.sender_user_id == me {
            DeliveryStatus::Sent
        } else {
            DeliveryStatus::Sending
        },
    }
}

/// A message that has just come in, as the cache keeps it.
pub open spec fn received(id: MessageId, sender_user_id: i64, text: Seq<char>) -> ChatMessageView {
    ChatMessageView {
        id,
        sender_user_id,
        text,
        outgoing: false,
        status: DeliveryStatus::Sending,
    }
}

/// The state after a message of the server, with or without an open channel.
pub open spec fn after_server_msg(
    s: ChatStateView,
    open: bool,
    msg: ServerMsgView,
) -> ChatStateView {
    match msg {
        ServerMsgView::AuthOk { user_id, token, expires_at } => ChatStateView {
            my_user_id: user_id,
            ..s
        },
        ServerMsgView::Error { code, text } => match code {
            ErrorCode::NotFriends
            | ErrorCode::NotAMember
            | ErrorCode::ConversationNotFound => s.without_active_conv(),
            _ => s,
        },
        ServerMsgView::FriendList { entries } => ChatStateView {
            unread: Map::empty(),
            friends: entries,
            ..s
        },
        ServerMsgView::PendingReqs { entries } => ChatStateView { incoming_reqs: entries, ..s },
        ServerMsgView::IncomingReq { from } => ChatStateView {
            incoming_reqs: s.incoming_reqs.push(from),
            ..s
        },
        ServerMsgView::FriendAdded { user } => if lists(s.friends, user.user_id) {
            s
        } else {
            ChatStateView { friends: s.friends.push(user), ..s }
        },
        ServerMsgView::UserFound { user } => if open && !lists(s.friends, user.user_id) && lists(
            s.incoming_reqs,
            user.user_id,
        ) {
            ChatStateView { incoming_reqs: others(s.incoming_reqs, user.user_id), ..s }
        } else {
            s
        },
        ServerMsgView::DmResolved { conv_id, peer } => ChatStateView {
            conv: s.conv.insert(peer.user_id, conv_id),
            active_conv: if s.active_peer_id == Some(peer.user_id) {
                Some(conv_id)
            } else {
                s.active_conv
            },
            ..s
        },
        ServerMsgView::MsgAck { message_id, conv_id } => s.with_raised(
            conv_id,
            message_id,
            DeliveryStatus::Sent,
        ),
        ServerMsgView::MsgRead { message_id, conv_id } => s.with_raised(
            conv_id,
            message_id,
            DeliveryStatus::Read,
        ),
        ServerMsgView::RecvMsg { message_id, conv_id, sender_user_id, timestamp, content } => {
            let t = s.with_message(conv_id, received(message_id, sender_user_id, content));
            if s.active_conv == Some(conv_id) {
                t
            } else {
                ChatStateView {
                    unread: s.unread.insert(
                        sender_user_id,
                        (s.unread_of(sender_user_id) + 1) as usize,
                    ),
                    ..t
                }
            }
        },
        _ => s,
    }
}

/// The state after an event.
pub open spec fn after_event(s: ChatStateView, open: bool, event: UiEventView) -> ChatStateView {
    match event {
        UiEventView::Disconnected(reason) => s.disconnected(),
        UiEventView::HistoryBatch { conv_id, entries } => ChatStateView {
            messages: s.messages.insert(
                conv_id,
                entries.map_values(|e: HistoryEntryView| stored(s.my_user_id, e)),
            ),
            ..s
        },
        UiEventView::Server(msg) => after_server_msg(s, open, msg),
    }
}

/// Whether the client can count one more unread message, where the event makes
/// it do so.
pub open spec fn can_count(s: ChatStateView, event: UiEventView) -> bool {
    event matches UiEventView::Server(ServerMsgView::RecvMsg { conv_id, sender_user_id, .. })
        ==> s.active_conv != Some(conv_id) ==> s.unread_of(sender_user_id) < usize::MAX
}

/// The window shows a text as the result of a search.
pub open spec fn post_result(text: Seq<char>) -> ActionView {
    ActionView::Post(UiUpdateView::SearchResult(text))
}

/// The window shows a text as its status.
pub open spec fn post_status(text: Seq<char>) -> ActionView {
    ActionView::Post(UiUpdateView::StatusMessage(text))
}

/// The reactions to a refusal of the server that was worded `text`; `t` is the
/// state after it.
pub open spec fn error_actions(
    s: ChatStateView,
    t: ChatStateView,
    open: bool,
    code: ErrorCode,
    text: Seq<char>,
) -> Seq<ActionView> {
    match code {
        ErrorCode::NotFriends => seq![
            ActionView::Post(t.messages_update()),
            post_result(
                "You are not friends with "@ + s.active_peer_login + ". Search for '"@
                    + s.active_peer_login + "' to send a request."@,
            ),
        ],
        ErrorCode::NotAMember => seq![
            ActionView::Post(t.messages_update()),
            post_status("You are no longer a member of this conversation."@),
        ],
        ErrorCode::ConversationNotFound => seq![ActionView::Post(t.messages_update())] + (
        match s.active_peer_id {
            Some(peer) => sends(open, seq![ClientMsgView::ResolveDm { peer_user_id: peer }]),
            None => Seq::empty(),
        }),
        ErrorCode::AlreadyFriends
        | ErrorCode::NoPendingRequest
        | ErrorCode::CannotTargetYourself
        | ErrorCode::UserNotFound => seq![post_result(text)],
        ErrorCode::MessageTooLong => seq![post_status("Message is too long."@)],
        ErrorCode::UnsupportedProtocolVersion
        | ErrorCode::InvalidCredentials
        | ErrorCode::RegistrationFailed
        | ErrorCode::MalformedFrame
        | ErrorCode::Internal => seq![
            post_status(text),
            ActionView::Post(UiUpdateView::CurrentScreen(0)),
        ],
    }
}

/// The logins of users.
pub open spec fn logins(users: Seq<UserBriefView>) -> Seq<Seq<char>> {
    users.map_values(|u: UserBriefView| u.login)
}

/// What the search for a user came to, in words.
pub open spec fn found_text(s: ChatStateView, user: UserBriefView) -> Seq<char> {
    if lists(s.friends, user.user_id) {
        user.login + " is already your friend."@
    } else if lists(s.incoming_reqs, user.user_id) {
        "Accepted friend request from "@ + user.login + "."@
    } else {
        "Sent friend request to "@ + user.login + "."@
    }
}

/// What is asked of the server about a user who was found.
pub open spec fn found_request(s: ChatStateView, user: UserBriefView) -> Seq<ClientMsgView> {
    if lists(s.friends, user.user_id) {
        Seq::empty()
    } else if lists(s.incoming_reqs, user.user_id) {
        seq![ClientMsgView::AcceptFriend { target_user_id: user.user_id }]
    } else {
        seq![ClientMsgView::FriendReq { target_user_id: user.user_id }]
    }
}

/// The reactions to a message of the server; `t` is the state after it.
pub open spec fn server_msg_actions(
    s: ChatStateView,
    t: ChatStateView,
    open: bool,
    msg: ServerMsgView,
) -> Seq<ActionView> {
    match msg {
        ServerMsgView::AuthOk { user_id, token, expires_at } => seq![
            ActionView::SaveSession(
                AppSettingsView::session(s.server_addr, s.login, token, user_id, expires_at),
            ),
            ActionView::Post(UiUpdateView::CurrentScreen(1)),
        ],
        ServerMsgView::Error { code, text } => error_actions(s, t, open, code, text),
        ServerMsgView::FriendList { entries } => seq![ActionView::Post(t.friends_update())],
        ServerMsgView::PendingReqs { entries } => if entries.len() == 0 {
            Seq::empty()
        } else {
            seq![post_result("Pending friend requests from: "@ + joined(logins(entries), ", "@))]
        },
        ServerMsgView::IncomingReq { from } => seq![
            post_result(
                "Incoming request from: "@ + from.login + ". Search for '"@ + from.login
                    + "' to accept!"@,
            ),
        ],
        ServerMsgView::FriendAdded { user } => if lists(s.friends, user.user_id) {
            Seq::empty()
        } else {
            seq![ActionView::Post(t.friends_update())]
        },
        ServerMsgView::UserFound { user } => sends(open, found_request(s, user)) + seq![
            post_result(found_text(s, user)),
        ],
        ServerMsgView::UserNotFound => seq![post_result("User not found."@)],
        ServerMsgView::DmResolved { conv_id, peer } => if s.active_peer_id == Some(peer.user_id) {
            seq![ActionView::Post(t.messages_update())] + sends(
                open,
                seq![ClientMsgView::HistoryReq { conv_id }],
            )
        } else {
            Seq::empty()
        },
        ServerMsgView::MsgAck { message_id, conv_id } => seq![
            ActionView::Post(t.messages_update()),
        ],
        ServerMsgView::MsgRead { message_id, conv_id } => seq![
            ActionView::Post(t.messages_update()),
        ],
        ServerMsgView::RecvMsg { message_id, conv_id, sender_user_id, timestamp, content } =>
            if s.active_conv == Some(conv_id) {
                seq![ActionView::Post(t.messages_update())] + scroll_actions() + sends(
                    open,
                    seq![ClientMsgView::MarkRead { message_id }],
                )
            } else {
                seq![ActionView::Post(t.friends_update())]
            },
        _ => Seq::empty(),
    }
}

/// The reactions to an event.
pub open spec fn event_actions(
    s: ChatStateView,
    open: bool,
    event: UiEventView,
) -> Seq<ActionView> {
    let t = after_event(s, open, event);
    match event {
        UiEventView::Disconnected(reason) => seq![
            post_status(reason),
            ActionView::Post(UiUpdateView::CurrentScreen(0)),
            ActionView::Post(UiUpdateView::ActivePeerId(-1i32)),
            ActionView::Post(UiUpdateView::ActivePeerLogin(Seq::empty())),
            ActionView::Post(t.messages_update()),
        ],
        UiEventView::HistoryBatch { conv_id, entries } => seq![
            ActionView::Post(t.messages_update()),
        ] + scroll_actions() + (if t.active_conv == Some(conv_id) {
            sends(open, marks(t.unread_ids()))
        } else {
            Seq::empty()
        }),
        UiEventView::Server(msg) => server_msg_actions(s, t, open, msg),
    }
}

fn push_send(actions: &mut Vec<Action>, open: bool, msg: ClientMsg)
    ensures
        views(final(actions)@) == views(old(actions)@) + sends(open, seq![msg@]),
{
    let ghost before = views(actions@);
    let ghost m = msg@;
    if open {
        actions.push(Action::Send(msg));
    }
    assert(views(actions@) =~= before + sends(open, seq![m]));
}

fn push_marks(actions: &mut Vec<Action>, open: bool, ids: &Vec<MessageId>)
    ensures
        views(final(actions)@) == views(old(actions)@) + sends(open, marks(ids@)),
{
    let ghost before = views(actions@);
    let mut i: usize = 0;
    assert(views(actions@) =~= before + sends(open, marks(ids@.take(0))));
    while i < ids.len()
        invariant
            i <= ids.len(),
            views(actions@) == before + sends(open, marks(ids@.take(i as int))),
            before == views(old(actions)@),
        decreases ids.len() - i,
    {
        push_send(actions, open, ClientMsg::MarkRead { message_id: ids[i] });
        assert(views(actions@) =~= before + sends(open, marks(ids@.take(i + 1))));
        i += 1;
    }
    assert(ids@.take(ids.len() as int) =~= ids@);
}

fn result_action(text: String) -> (r: Action)
    ensures
        r@ == post_result(text@),
{
    Action::Post(UiUpdate::SearchResult(text))
}

fn status_action(text: String) -> (r: Action)
    ensures
        r@ == post_status(text@),
{
    Action::Post(UiUpdate::StatusMessage(text))
}

/// `before`, `name` and `after`, one after the other.
fn around(before: &str, name: &str, after: &str) -> (r: String)
    ensures
        r@ == before@ + name@ + after@,
{
    let mut r = before.to_owned();
    r.append(name);
    r.append(after);
    r
}

fn join_logins(users: &Vec<UserBrief>) -> (r: String)
    ensures
        r@ == joined(logins(views(users@)), ", "@),
{
    let ghost all = logins(views(users@));
    let mut r = String::new();
    let mut i: usize = 0;
    while i < users.len()
        invariant
            i <= users.len(),
            all == logins(views(users@)),
            r@ == joined(all.take(i as int), ", "@),
        decreases users.len() - i,
    {
        assert(all[i as int] == users@[i as int].login@);
        assert(all.take(i + 1).drop_last() =~= all.take(i as int));
        assert(all.take(i + 1).last() == all[i as int]);
        if i > 0 {
            r.append(", ");
        }
        r.append(users[i].login.as_str());
        if i == 0 {
            assert(r@ =~= all[0]);
        }
        i += 1;
    }
    assert(all.take(all.len() as int) =~= all);
    r
}

impl AppController {
    /// A client that knows nothing yet and has no connection.
    pub fn new() -> (r: AppController)
        ensures
            r@ == (AppControllerView { state: ChatStateView::initial(), sender_slot: false }),
            r@.state.wf(),
    {
        AppController { state: ChatState::new(), sender_slot: false }
    }

    fn on_error(&mut self, code: ErrorCode, text: String) -> (r: Vec<Action>)
        ensures
            final(self).sender_slot == old(self).sender_slot,
            final(self)@.state == after_server_msg(
                old(self)@.state,
                old(self).sender_slot,
                ServerMsgView::Error { code, text: text@ },
            ),
            views(r@) == error_actions(
                old(self)@.state,
                final(self)@.state,
                old(self).sender_slot,
                code,
                text@,
            ),
    {
        let ghost s = self@.state;
        let ghost words = text@;
        let mut actions: Vec<Action> = Vec::new();
        match code {
            ErrorCode::NotFriends => {
                let mut line = around(
                    "You are not friends with ",
                    self.state.active_peer_login.as_str(),
                    ". Search for '",
                );
                line.append(self.state.active_peer_login.as_str());
                line.append("' to send a request.");
                forget_conversation(&mut self.state);
                actions.push(sync_messages(&self.state));
                actions.push(result_action(line));
            },
            ErrorCode::NotAMember => {
                forget_conversation(&mut self.state);
                actions.push(sync_messages(&self.state));
                actions.push(
                    status_action("You are no longer a member of this conversation.".to_owned()),
                );
            },
            ErrorCode::ConversationNotFound => {
                forget_conversation(&mut self.state);
                actions.push(sync_messages(&self.state));
                if let Some(peer) = self.state.active_peer_id {
                    push_send(
                        &mut actions,
                        self.sender_slot,
                        ClientMsg::ResolveDm { peer_user_id: peer },
                    );
                }
            },
            ErrorCode::AlreadyFriends
            | ErrorCode::NoPendingRequest
            | ErrorCode::CannotTargetYourself
            | ErrorCode::UserNotFound => {
                actions.push(result_action(text));
            },
            ErrorCode::MessageTooLong => {
                actions.push(status_action("Message is too long.".to_owned()));
            },
            ErrorCode::UnsupportedProtocolVersion
            | ErrorCode::InvalidCredentials
            | ErrorCode::RegistrationFailed
            | ErrorCode::MalformedFrame
            | ErrorCode::Internal => {
                actions.push(status_action(text));
                actions.push(Action::Post(UiUpdate::CurrentScreen(0)));
            },
        }
        assert(views(actions@) =~= error_actions(s, self@.state, self.sender_slot, code, words));
        actions
    }

    fn on_user_found(&mut self, user: UserBrief) -> (r: Vec<Action>)
        ensures
            final(self).sender_slot == old(self).sender_slot,
            final(self)@.state == after_server_msg(
                old(self)@.state,
                old(self).sender_slot,
                ServerMsgView::UserFound { user: user@ },
            ),
            views(r@) == server_msg_actions(
                old(self)@.state,
                final(self)@.state,
                old(self).sender_slot,
                ServerMsgView::UserFound { user: user@ },
            ),
    {
        let ghost s = self@.state;
        let open: bool = self.sender_slot;
        let mut actions: Vec<Action> = Vec::new();
        let is_incoming = is_listed(&self.state.incoming_reqs, user.user_id);
        let is_friend = is_listed(&self.state.friends, user.user_id);
        if !is_friend {
            if is_incoming {
                if open {
                    remove_user(&mut self.state.incoming_reqs, user.user_id);
                }
                push_send(
                    &mut actions,
                    open,
                    ClientMsg::AcceptFriend { target_user_id: user.user_id },
                );
            } else {
                push_send(
                    &mut actions,
                    open,
                    ClientMsg::FriendReq { target_user_id: user.user_id },
                );
            }
        }
        assert(views(actions@) =~= sends(open, found_request(s, user@)));
        let text = if is_friend {
            around("", user.login.as_str(), " is already your friend.")
        } else if is_incoming {
            around("Accepted friend request from ", user.login.as_str(), ".")
        } else {
            around("Sent friend request to ", user.login.as_str(), ".")
        };
        proof {
            reveal_strlit("");
            assert(text@ =~= found_text(s, user@));
        }
        actions.push(result_action(text));
        assert(self@.state =~= after_server_msg(
            s,
            open,
            ServerMsgView::UserFound { user: user@ },
        ));
        assert(views(actions@) =~= sends(open, found_request(s, user@)) + seq![
            post_result(found_text(s, user@)),
        ]);
        actions
    }

    fn on_message(
        &mut self,
        message_id: MessageId,
        conv_id: ConvId,
        sender_user_id: i64,
        timestamp: i64,
        content: String,
    ) -> (r: Vec<Action>)
        requires
            can_count(
                old(self)@.state,
                UiEventView::Server(
                    ServerMsgView::RecvMsg {
                        message_id,
                        conv_id,
                        sender_user_id,
                        timestamp,
                        content: content@,
                    },
                ),
            ),
        ensures
            final(self).sender_slot == old(self).sender_slot,
            final(self)@.state == after_server_msg(
                old(self)@.state,
                old(self).sender_slot,
                ServerMsgView::RecvMsg {
                    message_id,
                    conv_id,
                    sender_user_id,
                    timestamp,
                    content: content@,
                },
            ),
            views(r@) == server_msg_actions(
                old(self)@.state,
                final(self)@.state,
                old(self).sender_slot,
                ServerMsgView::RecvMsg {
                    message_id,
                    conv_id,
                    sender_user_id,
                    timestamp,
                    content: content@,
                },
            ),
    {
        let ghost msg = ServerMsgView::RecvMsg {
            message_id,
            conv_id,
            sender_user_id,
            timestamp,
            content: content@,
        };
        let ghost s = self@.state;
        let open: bool = self.sender_slot;
        let mut actions: Vec<Action> = Vec::new();
        self.state.add_message(
            conv_id,
            ChatMessage {
                id: message_id,
                sender_user_id,
                text: content,
                outgoing: false,
                status: DeliveryStatus::Sending,
            },
        );
        if self.state.active_conv == Some(conv_id) {
            actions.push(sync_messages(&self.state));
            request_scroll(&mut actions);
            push_send(&mut actions, open, ClientMsg::MarkRead { message_id });
        } else {
            let count: usize = match self.state.unread.get(&sender_user_id) {
                Some(n) => *n,
                None => 0,
            };
            self.state.unread.insert(sender_user_id, count + 1);
            actions.push(sync_friends(&self.state));
        }
        assert(self@.state =~= after_server_msg(s, open, msg));
        assert(views(actions@) =~= server_msg_actions(s, self@.state, open, msg));
        actions
    }

    fn on_server_msg(&mut self, msg: ServerMsg) -> (r: Vec<Action>)
        requires
            can_count(old(self)@.state, UiEventView::Server(msg@)),
        ensures
            final(self).sender_slot == old(self).sender_slot,
            final(self)@.state == after_server_msg(old(self)@.state, old(self).sender_slot, msg@),
            views(r@) == server_msg_actions(
                old(self)@.state,
                final(self)@.state,
                old(self).sender_slot,
                msg@,
            ),
    {
        let ghost s = self@.state;
        let ghost m = msg@;
        let open: bool = self.sender_slot;
        let mut actions: Vec<Action> = Vec::new();
        match msg {
            ServerMsg::AuthOk { user_id, token, expires_at } => {
                self.state.my_user_id = user_id;
                actions.push(
                    Action::SaveSession(
                        save_session(
                            self.state.server_addr.as_str(),
                            self.state.login.as_str(),
                            token.as_str(),
                            user_id,
                            expires_at,
                        ),
                    ),
                );
                actions.push(Action::Post(UiUpdate::CurrentScreen(1)));
            },
            ServerMsg::Error { code, text } => {
                return self.on_error(code, text);
            },
            ServerMsg::FriendList { entries } => {
                self.state.unread.clear();
                self.state.friends = entries;
                actions.push(sync_friends(&self.state));
            },
            ServerMsg::PendingReqs { entries } => {
                if entries.len() > 0 {
                    let names = join_logins(&entries);
                    actions.push(
                        result_action(around("Pending friend requests from: ", names.as_str(), "")),
                    );
                    proof {
                        reveal_strlit("");
                        assert("Pending friend requests from: "@ + names@ + ""@
                            =~= "Pending friend requests from: "@ + names@);
                    }
                }
                self.state.incoming_reqs = entries;
            },
            ServerMsg::IncomingReq { from } => {
                let mut line = around(
                    "Incoming request from: ",
                    from.login.as_str(),
                    ". Search for '",
                );
                line.append(from.login.as_str());
                line.append("' to accept!");
                self.state.incoming_reqs.push(from);
                actions.push(result_action(line));
            },
            ServerMsg::FriendAdded { user } => {
                if !is_listed(&self.state.friends, user.user_id) {
                    self.state.friends.push(user);
                    actions.push(sync_friends(&self.state));
                }
            },
            ServerMsg::UserFound { user } => {
                return self.on_user_found(user);
            },
            ServerMsg::UserNotFound => {
                actions.push(result_action("User not found.".to_owned()));
            },
            ServerMsg::DmResolved { conv_id, peer } => {
                self.state.conv.insert(peer.user_id, conv_id);
                if self.state.active_peer_id == Some(peer.user_id) {
                    self.state.active_conv = Some(conv_id);
                    actions.push(sync_messages(&self.state));
                    push_send(&mut actions, open, ClientMsg::HistoryReq { conv_id });
                }
            },
            ServerMsg::MsgAck { message_id, conv_id } => {
                self.state.raise_status(conv_id, message_id, DeliveryStatus::Sent);
                actions.push(sync_messages(&self.state));
            },
            ServerMsg::MsgRead { message_id, conv_id } => {
                self.state.raise_status(conv_id, message_id, DeliveryStatus::Read);
                actions.push(sync_messages(&self.state));
            },
            ServerMsg::RecvMsg { message_id, conv_id, sender_user_id, timestamp, content } => {
                return self.on_message(message_id, conv_id, sender_user_id, timestamp, content);
            },
            ServerMsg::PowChallenge { challenge: _, difficulty_bits: _ } => {},
            ServerMsg::AuthFailed { reason: _ } => {},
            ServerMsg::HistoryMsg {
                message_id: _,
                sender_user_id: _,
                timestamp: _,
                content: _,
                is_read: _,
            } => {},
            ServerMsg::HistoryEnd => {},
            ServerMsg::Other => {},
        }
        assert(self@.state =~= after_server_msg(s, open, m));
        assert(views(actions@) =~= server_msg_actions(s, self@.state, open, m));
        actions
    }

    fn on_history(&mut self, conv_id: ConvId, entries: Vec<HistoryEntry>) -> (r: Vec<Action>)
        ensures
            final(self).sender_slot == old(self).sender_slot,
            final(self)@.state == after_event(
                old(self)@.state,
                old(self).sender_slot,
                UiEventView::HistoryBatch { conv_id, entries: views(entries@) },
            ),
            views(r@) == event_actions(
                old(self)@.state,
                old(self).sender_slot,
                UiEventView::HistoryBatch { conv_id, entries: views(entries@) },
            ),
    {
        let ghost s = self@.state;
        let ghost event = UiEventView::HistoryBatch { conv_id, entries: views(entries@) };
        let open: bool = self.sender_slot;
        let msgs = store_history(self.state.my_user_id, &entries);
        self.state.messages.insert(conv_id, msgs);
        assert(self@.state =~= after_event(s, open, event));
        let mut actions: Vec<Action> = Vec::new();
        actions.push(sync_messages(&self.state));
        request_scroll(&mut actions);
        if self.state.active_conv == Some(conv_id) {
            let ids = unread_message_ids(&self.state);
            push_marks(&mut actions, open, &ids);
        }
        assert(views(actions@) =~= event_actions(s, open, event));
        actions
    }

    /// Whether the client can count one more unread message, where the event
    /// makes it do so. It cannot only when a count has reached the largest
    /// number there is.
    pub fn can_handle(&self, event: &UiEvent) -> (r: bool)
        ensures
            r == can_count(self@.state, event@),
    {
        match event {
            UiEvent::Server(
                ServerMsg::RecvMsg {
                    message_id: _,
                    conv_id,
                    sender_user_id,
                    timestamp: _,
                    content: _,
                },
            ) => {
                if self.state.active_conv == Some(*conv_id) {
                    return true;
                }
                match self.state.unread.get(sender_user_id) {
                    Some(n) => *n < usize::MAX,
                    None => true,
                }
            },
            _ => true,
        }
    }

    /// Takes an event of the network side into account.
    pub fn handle_ui_event(&mut self, event: UiEvent) -> (r: Vec<Action>)
        requires
            can_count(old(self)@.state, event@),
        ensures
            final(self)@ == (AppControllerView {
                state: after_event(old(self)@.state, old(self).sender_slot, event@),
                sender_slot: old(self).sender_slot,
            }),
            views(r@) == event_actions(old(self)@.state, old(self).sender_slot, event@),
            old(self)@.state.wf() ==> final(self)@.state.wf(),
    {
        let ghost s = self@.state;
        let ghost e = event@;
        let open: bool = self.sender_slot;
        match event {
            UiEvent::Disconnected(reason) => {
                let mut actions: Vec<Action> = Vec::new();
                self.state.disconnect();
                actions.push(status_action(reason));
                actions.push(Action::Post(UiUpdate::CurrentScreen(0)));
                actions.push(Action::Post(UiUpdate::ActivePeerId(-1)));
                actions.push(Action::Post(UiUpdate::ActivePeerLogin(String::new())));
                actions.push(sync_messages(&self.state));
                assert(views(actions@) =~= event_actions(s, open, e));
                actions
            },
            UiEvent::HistoryBatch { conv_id, entries } => self.on_history(conv_id, entries),
            UiEvent::Server(msg) => self.on_server_msg(msg),
        }
    }
}

fn store_history(me: i64, entries: &Vec<HistoryEntry>) -> (r: Vec<ChatMessage>)
    ensures
        views(r@) == views(entries@).map_values(|e: HistoryEntryView| stored(me, e)),
{
    let ghost all = views(entries@);
    let mut msgs: Vec<ChatMessage> = Vec::new();
    let mut i: usize = 0;
    while i < entries.len()
        invariant
            i <= entries.len(),
            all == views(entries@),
            msgs.len() == i,
            forall|j: int| 0 <= j < i ==> #[trigger] views(msgs@)[j] == stored(me, all[j]),
        decreases entries.len() - i,
    {
        let ghost before = msgs@;
        let e = &entries[i];
        assert(all[i as int] == e@);
        let is_out: bool = e.sender_user_id == me;
        let status = match (is_out, e.is_read) {
            (_, true) => DeliveryStatus::Read,
            (true, false) => DeliveryStatus::Sent,
            (false, false) => DeliveryStatus::Sending,
        };
        msgs.push(
            ChatMessage {
                id: e.message_id,
                sender_user_id: e.sender_user_id,
                text: e.content.clone(),
                outgoing: is_out,
                status,
            },
        );
        assert forall|j: int| 0 <= j < i + 1 implies #[trigger] views(msgs@)[j] == stored(
            me,
            all[j],
        ) by {
            if j < i {
                assert(views(before)[j] == stored(me, all[j]));
                assert(msgs@[j] == before[j]);
            }
        }
        i += 1;
    }
    assert(views(msgs@) =~= all.map_values(|e: HistoryEntryView| stored(me, e)));
    msgs
}

/// The state after the dialog with a person has been opened.
pub open spec fn after_open_chat(s: ChatStateView, peer: i64, login: Seq<char>) -> ChatStateView {
    ChatStateView {
        active_peer_id: Some(peer),
        active_peer_login: login,
        active_conv: lookup(s.conv, peer),
        unread: s.unread.insert(peer, 0),
        ..s
    }
}

/// The reactions to the opening of a dialog; `t` is the state after it.
///
/// A known conversation is asked for its history and its unread messages are
/// marked; of an unknown one the server is asked which it is.
pub open spec fn open_chat_actions(
    t: ChatStateView,
    open: bool,
    peer: i32,
    login: Seq<char>,
) -> Seq<ActionView> {
    seq![
        ActionView::Show(UiUpdateView::ActivePeerId(peer)),
        ActionView::Show(UiUpdateView::ActivePeerLogin(login)),
        ActionView::Show(t.messages_update()),
    ] + sends(
        open,
        match t.active_conv {
            Some(conv_id) => seq![ClientMsgView::HistoryReq { conv_id }] + marks(t.unread_ids()),
            None => seq![ClientMsgView::ResolveDm { peer_user_id: peer as i64 }],
        },
    ) + seq![ActionView::Post(t.friends_update())]
}

/// Whether a text takes more bytes than a message may have.
pub open spec fn too_long(max_message_len: usize, text: Seq<char>) -> bool {
    encode_utf8(text).len() > max_message_len
}

/// Whether a text goes out as a message: it fits, a conversation is open, and
/// so is the window.
pub open spec fn goes_out(
    s: ChatStateView,
    max_message_len: usize,
    window_open: bool,
    text: Seq<char>,
) -> bool {
    !too_long(max_message_len, text) && s.active_conv is Some && window_open
}

/// The reactions to a text that does not go out.
pub open spec fn held_back_actions(max_message_len: usize, text: Seq<char>) -> Seq<ActionView> {
    if too_long(max_message_len, text) {
        seq![
            post_status(
                "Message is too long: "@ + decimal(max_message_len as nat) + " bytes maximum."@,
            ),
        ]
    } else {
        Seq::empty()
    }
}

/// A message of the user that is yet to be acknowledged.
pub open spec fn queued(id: MessageId, me: i64, text: Seq<char>) -> ChatMessageView {
    ChatMessageView {
        id,
        sender_user_id: me,
        text,
        outgoing: true,
        status: DeliveryStatus::Sending,
    }
}

/// The state after a text has gone out as the message `id`.
pub open spec fn after_send(s: ChatStateView, id: MessageId, text: Seq<char>) -> ChatStateView {
    match s.active_conv {
        Some(conv_id) => s.with_message(conv_id, queued(id, s.my_user_id, text)),
        None => s,
    }
}

/// The reactions to a text that goes out as the message `id`; `t` is the state
/// after it.
pub open spec fn send_actions(
    t: ChatStateView,
    open: bool,
    id: MessageId,
    text: Seq<char>,
) -> Seq<ActionView> {
    match t.active_conv {
        Some(conv_id) => seq![ActionView::Show(t.messages_update())] + scroll_actions() + sends(
            open,
            seq![ClientMsgView::SendMsg { message_id: id, conv_id, content: text }],
        ),
        None => Seq::empty(),
    }
}

/// The session that `stored` holds, under another address and login. What is
/// not stored is written as empty or zero.
pub open spec fn resaved(
    stored: AppSettingsView,
    addr: Seq<char>,
    login: Seq<char>,
) -> AppSettingsView {
    AppSettingsView::session(
        addr,
        login,
        match stored.token {
            Some(token) => token,
            None => Seq::empty(),
        },
        match stored.user_id {
            Some(id) => id,
            None => 0,
        },
        match stored.expires_at {
            Some(t) => t,
            None => 0,
        },
    )
}

/// The client after a request to connect.
pub open spec fn after_connect(
    c: AppControllerView,
    addr: Seq<char>,
    login: Seq<char>,
) -> AppControllerView {
    AppControllerView {
        state: ChatStateView { server_addr: addr, login, ..c.state },
        sender_slot: true,
    }
}

/// The reactions to a request to connect; a network task is started unless
/// there is one.
pub open spec fn connect_actions(
    open: bool,
    stored: AppSettingsView,
    addr: Seq<char>,
    login: Seq<char>,
    password: Seq<char>,
    is_register: bool,
) -> Seq<ActionView> {
    seq![
        ActionView::SaveSession(resaved(stored, addr, login)),
        ActionView::Show(UiUpdateView::StatusMessage("Connecting..."@)),
    ] + (if open {
        Seq::empty()
    } else {
        seq![ActionView::StartNetwork { server_addr: addr, login, password, is_register }]
    })
}

/// Whether stored settings hold a session that is good at the time `now`.
pub open spec fn can_resume(stored: AppSettingsView, now: i64) -> bool {
    &&& stored.server_address is Some
    &&& stored.token matches Some(token) && !blank(token)
    &&& stored.expires_at matches Some(t) && t > now
}

/// The stored login, or the empty one.
pub open spec fn stored_login(stored: AppSettingsView) -> Seq<char> {
    match stored.login {
        Some(login) => login,
        None => Seq::empty(),
    }
}

/// The client after the start of the program at the time `now`.
pub open spec fn after_auto_login(
    c: AppControllerView,
    stored: AppSettingsView,
    now: i64,
) -> AppControllerView {
    if can_resume(stored, now) {
        after_connect(c, stored.server_address->0, stored_login(stored))
    } else {
        c
    }
}

/// The window shows the stored address and login.
pub open spec fn stored_fields(stored: AppSettingsView) -> Seq<ActionView> {
    (match stored.server_address {
        Some(addr) => seq![ActionView::Show(UiUpdateView::ServerAddress(addr))],
        None => Seq::empty(),
    }) + (match stored.login {
        Some(login) => seq![ActionView::Show(UiUpdateView::LoginText(login))],
        None => Seq::empty(),
    })
}

/// The reactions to the start of the program at the time `now`.
pub open spec fn auto_login_actions(
    open: bool,
    stored: AppSettingsView,
    now: i64,
) -> Seq<ActionView> {
    stored_fields(stored) + (if can_resume(stored, now) {
        connect_actions(
            open,
            stored,
            stored.server_address->0,
            stored_login(stored),
            Seq::empty(),
            false,
        )
    } else {
        Seq::empty()
    })
}

/// The reactions to the end of a session by the user; `t` is the state after it.
pub open spec fn disconnect_actions(t: ChatStateView) -> Seq<ActionView> {
    seq![
        ActionView::CloseSender,
        ActionView::ClearSession,
        ActionView::Show(UiUpdateView::CurrentScreen(0)),
        ActionView::Show(UiUpdateView::ActivePeerId(-1i32)),
        ActionView::Show(UiUpdateView::ActivePeerLogin(Seq::empty())),
        ActionView::Show(t.messages_update()),
    ]
}

/// The least number of bytes of a password.
pub const MIN_PASSWORD_LEN: usize = 8;

/// Whether a password can be judged: it is too short for an estimate, or short
/// enough that the estimate cannot overflow.
pub open spec fn ratable(password: Seq<char>) -> bool {
    encode_utf8(password).len() >= MIN_PASSWORD_LEN ==> password.len() <= rated_chars()
}

/// Whether a password can be judged. One of too many characters cannot: its
/// estimate could overflow.
pub fn can_rate(password: &str) -> (r: bool)
    ensures
        r == ratable(password@),
{
    let bytes = password.as_bytes();
    if bytes.len() < MIN_PASSWORD_LEN {
        return true;
    }
    let limit: usize = if usize::MAX as u64 > 0xffff_ffffu64 {
        20
    } else {
        12
    };
    password.unicode_len() <= limit
}

/// The window shows a password as `strength`, in words `text`.
pub open spec fn show_strength(strength: i32, text: Seq<char>) -> Seq<ActionView> {
    seq![
        ActionView::Show(UiUpdateView::PasswordStrength(strength)),
        ActionView::Show(UiUpdateView::PasswordStrengthText(text)),
    ]
}

/// A score in words.
pub open spec fn score_text(score: i32) -> Seq<char> {
    if score == 0 {
        "Too weak (needs improvement)"@
    } else if score == 1 {
        "Weak (needs at least Fair)"@
    } else if score == 2 {
        "Fair (minimum required)"@
    } else if score == 3 {
        "Strong"@
    } else if score == 4 {
        "Excellent"@
    } else {
        Seq::empty()
    }
}

/// Shows how strong a password of the given score is.
pub fn show_score(score: i32) -> (r: Vec<Action>)
    ensures
        views(r@) == show_strength(score, score_text(score)),
{
    let text: String = match score {
        0 => "Too weak (needs improvement)".to_owned(),
        1 => "Weak (needs at least Fair)".to_owned(),
        2 => "Fair (minimum required)".to_owned(),
        3 => "Strong".to_owned(),
        4 => "Excellent".to_owned(),
        _ => String::new(),
    };
    let mut actions: Vec<Action> = Vec::new();
    actions.push(Action::Show(UiUpdate::PasswordStrength(score)));
    actions.push(Action::Show(UiUpdate::PasswordStrengthText(text)));
    assert(views(actions@) =~= show_strength(score, score_text(score)));
    actions
}

/// The text, or the empty one.
fn or_empty(s: &Option<String>) -> (r: String)
    ensures
        r@ == (match text_view(*s) {
            Some(t) => t,
            None => Seq::empty(),
        }),
{
    match s {
        Some(t) => t.clone(),
        None => String::new(),
    }
}

fn resave(stored: &AppSettings, addr: &str, login: &str) -> (r: Action)
    ensures
        r@ == ActionView::SaveSession(resaved(stored@, addr@, login@)),
{
    let token = or_empty(&stored.token);
    Action::SaveSession(
        save_session(
            addr,
            login,
            token.as_str(),
            stored.user_id.unwrap_or(0),
            stored.expires_at.unwrap_or(0),
        ),
    )
}

impl AppController {
    /// Judges a password while it is typed.
    ///
    /// A password of sufficient length is shown with its score in the current
    /// year; [`show_score`] says what is shown for each score, and [`can_rate`]
    /// whether a password can be judged.
    pub fn handle_check_password_strength(&self, password: &str) -> (r: Vec<Action>)
        requires
            ratable(password@),
        ensures
            encode_utf8(password@).len() < MIN_PASSWORD_LEN ==> views(r@) == show_strength(
                0,
                "Too short (min 8 chars)"@,
            ),
            encode_utf8(password@).len() >= MIN_PASSWORD_LEN ==> exists|year: i32|
                {
                    let score = #[trigger] score_in(password@, year);
                    &&& 0 <= score <= score_limit(password@.len())
                    &&& views(r@) == show_strength(score, score_text(score))
                },
    {
        let bytes = password.as_bytes();
        if bytes.len() < MIN_PASSWORD_LEN {
            let mut actions: Vec<Action> = Vec::new();
            actions.push(Action::Show(UiUpdate::PasswordStrength(0)));
            actions.push(
                Action::Show(
                    UiUpdate::PasswordStrengthText("Too short (min 8 chars)".to_owned()),
                ),
            );
            assert(views(actions@) =~= show_strength(0, "Too short (min 8 chars)"@));
            return actions;
        }
        show_score(password_score(password))
    }

    /// Connects to a server, unless a connection is there. `stored` is what
    /// the settings file holds; its session is kept under the new address and
    /// login.
    pub fn handle_connect(
        &mut self,
        stored: &AppSettings,
        addr: &str,
        login: &str,
        password: &str,
        is_register: bool,
    ) -> (r: Vec<Action>)
        ensures
            final(self)@ == after_connect(old(self)@, addr@, login@),
            views(r@) == connect_actions(
                old(self).sender_slot,
                stored@,
                addr@,
                login@,
                password@,
                is_register,
            ),
            old(self)@.state.wf() ==> final(self)@.state.wf(),
    {
        let open: bool = self.sender_slot;
        let ghost c = self@;
        let mut actions: Vec<Action> = Vec::new();
        self.state.server_addr = addr.to_owned();
        self.state.login = login.to_owned();
        actions.push(resave(stored, addr, login));
        actions.push(Action::Show(UiUpdate::StatusMessage("Connecting...".to_owned())));
        if !open {
            self.sender_slot = true;
            actions.push(
                Action::StartNetwork {
                    server_addr: addr.to_owned(),
                    login: login.to_owned(),
                    password: password.to_owned(),
                    is_register,
                },
            );
        }
        assert(self@ =~= after_connect(c, addr@, login@));
        assert(views(actions@) =~= connect_actions(
            open,
            stored@,
            addr@,
            login@,
            password@,
            is_register,
        ));
        actions
    }

    /// Shows the stored address and login and resumes the stored session if it
    /// is good at the time `now`.
    pub fn auto_login_at(&mut self, stored: &AppSettings, now: i64) -> (r: Vec<Action>)
        ensures
            final(self)@ == after_auto_login(old(self)@, stored@, now),
            views(r@) == auto_login_actions(old(self).sender_slot, stored@, now),
            old(self)@.state.wf() ==> final(self)@.state.wf(),
    {
        let open: bool = self.sender_slot;
        let mut actions: Vec<Action> = Vec::new();
        if let Some(addr) = &stored.server_address {
            actions.push(Action::Show(UiUpdate::ServerAddress(addr.clone())));
        }
        if let Some(login) = &stored.login {
            actions.push(Action::Show(UiUpdate::LoginText(login.clone())));
        }
        assert(views(actions@) =~= stored_fields(stored@));
        let has_token: bool = match &stored.token {
            Some(token) => !is_blank(token.as_str()),
            None => false,
        };
        let not_expired: bool = match stored.expires_at {
            Some(t) => t > now,
            None => false,
        };
        if let Some(addr) = &stored.server_address {
            if has_token && not_expired {
                let login = or_empty(&stored.login);
                let password = String::new();
                let ghost shown = views(actions@);
                let mut more = self.handle_connect(
                    stored,
                    addr.as_str(),
                    login.as_str(),
                    password.as_str(),
                    false,
                );
                let ghost rest = views(more@);
                actions.append(&mut more);
                assert(views(actions@) =~= shown + rest);
            }
        }
        assert(views(actions@) =~= auto_login_actions(open, stored@, now));
        actions
    }

    /// Shows the stored address and login and resumes the stored session if it
    /// has not expired. What happens at a given time is said by
    /// [`AppController::auto_login_at`].
    pub fn try_auto_login(&mut self, stored: &AppSettings) -> (r: Vec<Action>)
        ensures
            exists|now: i64|
                {
                    &&& now >= 0
                    &&& final(self)@ == #[trigger] after_auto_login(old(self)@, stored@, now)
                    &&& views(r@) == auto_login_actions(old(self).sender_slot, stored@, now)
                },
            old(self)@.state.wf() ==> final(self)@.state.wf(),
    {
        let now = timestamp_now();
        self.auto_login_at(stored, now)
    }

    /// Queues a text that goes out as the message `id`.
    pub fn send_msg_as(&mut self, id: MessageId, text: &str) -> (r: Vec<Action>)
        ensures
            final(self)@ == (AppControllerView {
                state: after_send(old(self)@.state, id, text@),
                sender_slot: old(self).sender_slot,
            }),
            views(r@) == send_actions(final(self)@.state, old(self).sender_slot, id, text@),
            old(self)@.state.wf() ==> final(self)@.state.wf(),
    {
        let open: bool = self.sender_slot;
        let mut actions: Vec<Action> = Vec::new();
        if let Some(conv_id) = self.state.active_conv {
            let my_id: i64 = self.state.my_user_id;
            self.state.add_message(
                conv_id,
                ChatMessage {
                    id,
                    sender_user_id: my_id,
                    text: text.to_owned(),
                    outgoing: true,
                    status: DeliveryStatus::Sending,
                },
            );
            actions.push(sync_messages_now(&self.state));
            request_scroll(&mut actions);
            push_send(
                &mut actions,
                open,
                ClientMsg::SendMsg { message_id: id, conv_id, content: text.to_owned() },
            );
        }
        assert(views(actions@) =~= send_actions(self@.state, open, id, text@));
        actions
    }

    /// Sends a text to the open conversation, under an identifier left to
    /// chance. A text of more than `max_message_len` bytes is refused; without
    /// a conversation or a window nothing happens.
    pub fn handle_send_msg(
        &mut self,
        max_message_len: usize,
        window_open: bool,
        text: &str,
    ) -> (r: Vec<Action>)
        ensures
            !goes_out(old(self)@.state, max_message_len, window_open, text@) ==> {
                &&& final(self)@ == old(self)@
                &&& views(r@) == held_back_actions(max_message_len, text@)
            },
            goes_out(old(self)@.state, max_message_len, window_open, text@) ==> exists|
                id: MessageId,
            |
                {
                    &&& random_id(id)
                    &&& final(self)@ == (AppControllerView {
                        state: #[trigger] after_send(old(self)@.state, id, text@),
                        sender_slot: old(self).sender_slot,
                    })
                    &&& views(r@) == send_actions(
                        final(self)@.state,
                        old(self).sender_slot,
                        id,
                        text@,
                    )
                },
            old(self)@.state.wf() ==> final(self)@.state.wf(),
    {
        let bytes = text.as_bytes();
        if bytes.len() > max_message_len {
            let limit = decimal_text(max_message_len);
            let mut actions: Vec<Action> = Vec::new();
            actions.push(
                status_action(around("Message is too long: ", limit.as_str(), " bytes maximum.")),
            );
            assert(views(actions@) =~= held_back_actions(max_message_len, text@));
            return actions;
        }
        if self.state.active_conv.is_none() || !window_open {
            let actions: Vec<Action> = Vec::new();
            assert(views(actions@) =~= held_back_actions(max_message_len, text@));
            return actions;
        }
        let id = new_message_id();
        self.send_msg_as(id, text)
    }

    /// Opens the dialog with a person.
    pub fn handle_open_chat(&mut self, peer_user_id: i32, login: &str) -> (r: Vec<Action>)
        ensures
            final(self)@ == (AppControllerView {
                state: after_open_chat(old(self)@.state, peer_user_id as i64, login@),
                sender_slot: old(self).sender_slot,
            }),
            views(r@) == open_chat_actions(
                final(self)@.state,
                old(self).sender_slot,
                peer_user_id,
                login@,
            ),
            final(self)@.state.wf(),
    {
        let ghost s = self@.state;
        let open: bool = self.sender_slot;
        let peer: i64 = peer_user_id as i64;
        self.state.active_peer_id = Some(peer);
        self.state.active_peer_login = login.to_owned();
        self.state.active_conv = match self.state.conv.get(&peer) {
            Some(conv_id) => Some(*conv_id),
            None => None,
        };
        self.state.unread.insert(peer, 0);
        assert(self@.state =~= after_open_chat(s, peer, login@));
        let mut actions: Vec<Action> = Vec::new();
        actions.push(Action::Show(UiUpdate::ActivePeerId(peer_user_id)));
        actions.push(Action::Show(UiUpdate::ActivePeerLogin(login.to_owned())));
        actions.push(sync_messages_now(&self.state));
        match self.state.active_conv {
            Some(conv_id) => {
                push_send(&mut actions, open, ClientMsg::HistoryReq { conv_id });
                let ids = unread_message_ids(&self.state);
                push_marks(&mut actions, open, &ids);
            },
            None => {
                push_send(&mut actions, open, ClientMsg::ResolveDm { peer_user_id: peer });
            },
        }
        actions.push(sync_friends(&self.state));
        assert(views(actions@) =~= open_chat_actions(self@.state, open, peer_user_id, login@));
        actions
    }

    /// Looks a user up by login.
    pub fn handle_search_user(&self, login: &str) -> (r: Vec<Action>)
        ensures
            views(r@) == sends(
                self.sender_slot,
                seq![ClientMsgView::SearchUser { login: login@ }],
            ),
    {
        let mut actions: Vec<Action> = Vec::new();
        push_send(
            &mut actions,
            self.sender_slot,
            ClientMsg::SearchUser { login: login.to_owned() },
        );
        assert(views(actions@) =~= sends(
            self.sender_slot,
            seq![ClientMsgView::SearchUser { login: login@ }],
        ));
        actions
    }

    /// Ends the session.
    pub fn handle_disconnect(&mut self) -> (r: Vec<Action>)
        ensures
            final(self)@ == (AppControllerView {
                state: old(self)@.state.disconnected(),
                sender_slot: false,
            }),
            views(r@) == disconnect_actions(final(self)@.state),
            final(self)@.state.wf(),
    {
        self.sender_slot = false;
        self.state.disconnect();
        let mut actions: Vec<Action> = Vec::new();
        actions.push(Action::CloseSender);
        actions.push(Action::ClearSession);
        actions.push(Action::Show(UiUpdate::CurrentScreen(0)));
        actions.push(Action::Show(UiUpdate::ActivePeerId(-1)));
        actions.push(Action::Show(UiUpdate::ActivePeerLogin(String::new())));
        actions.push(sync_messages_now(&self.state));
        assert(views(actions@) =~= disconnect_actions(self@.state));
        actions
    }

    /// Stores an address beside the session of the settings file, which holds
    /// `stored`. `login` is what the window shows as login, if it is open.
    pub fn handle_save_settings(
        &self,
        stored: &AppSettings,
        login: Option<String>,
        addr: &str,
    ) -> (r: Vec<Action>)
        ensures
            views(r@) == seq![
                ActionView::SaveSession(
                    resaved(
                        stored@,
                        addr@,
                        match login {
                            Some(l) => l@,
                            None => Seq::empty(),
                        },
                    ),
                ),
            ],
    {
        let login = or_empty(&login);
        let mut actions: Vec<Action> = Vec::new();
        actions.push(resave(stored, addr, login.as_str()));
        assert(views(actions@) =~= seq![
            ActionView::SaveSession(resaved(stored@, addr@, login@)),
        ]);
        actions
    }

    /// Takes note that the network task has ended and its channel is gone.
    pub fn handle_network_end(&mut self)
        ensures
            final(self)@ == (AppControllerView { sender_slot: false, ..old(self)@ }),
    {
        self.sender_slot = false;
    }
}

} // verus!
