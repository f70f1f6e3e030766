//! What every event of the network side does to the client, said of what the
//! client knows before and after it and of the actions that it asks for.

use crate::controller::{after_event, can_count, event_actions};
use crate::effects::{ActionView, UiUpdateView};
use crate::protocol::{ClientMsgView, ConvId, ErrorCode, MessageId, ServerMsgView, UserBriefView};
use crate::settings::AppSettingsView;
use crate::shown::{law_dialog_is_shown, law_friends_are_shown, shows_dialog, shows_friends};
use crate::state::ChatStateView;
use crate::text::joined;
use crate::types::{ChatMessageView, DeliveryStatus, HistoryEntryView, UiEventView};
use vstd::prelude::*;

verus! {

/// The action makes the window show the open dialog of `s` when its event loop
/// comes to it.
pub open spec fn posts_dialog(action: ActionView, s: ChatStateView) -> bool {
    action matches ActionView::Post(update) && shows_dialog(update, s)
}

/// The action makes the window show the friends of `s` when its event loop
/// comes to it.
pub open spec fn posts_friends(action: ActionView, s: ChatStateView) -> bool {
    action matches ActionView::Post(update) && shows_friends(update, s)
}

/// The actions ask for a scroll, from place `i` on, and for its end after 300
/// milliseconds.
pub open spec fn scroll_at(actions: Seq<ActionView>, i: int) -> bool {
    &&& actions[i] == ActionView::Post(UiUpdateView::ScrollPending(true))
    &&& actions[i + 1] == (ActionView::PostAfter {
        millis: 300,
        update: UiUpdateView::ScrollPending(false),
    })
}

/// Some user of the list has this number.
pub open spec fn listed(users: Seq<UserBriefView>, id: i64) -> bool {
    exists|i: int| 0 <= i < users.len() && (#[trigger] users[i]).user_id == id
}

/// The end of a connection leaves nothing of the session and keeps the friends,
/// the requests, the address and the login; the window goes back to the login
/// screen with the reason given and an empty dialog.
pub proof fn law_disconnected(s: ChatStateView, open: bool, reason: Seq<char>)
    ensures
        ({
            let event = UiEventView::Disconnected(reason);
            let t = after_event(s, open, event);
            &&& t.my_user_id == 0
            &&& t.active_peer_id is None
            &&& t.active_peer_login.len() == 0
            &&& t.active_conv is None
            &&& forall|k: i64| !(#[trigger] t.conv.contains_key(k))
            &&& forall|k: ConvId| !(#[trigger] t.messages.contains_key(k))
            &&& forall|k: i64| !(#[trigger] t.unread.contains_key(k))
            &&& t.friends == s.friends && t.incoming_reqs == s.incoming_reqs
            &&& t.server_addr == s.server_addr && t.login == s.login
            &&& event_actions(s, open, event) == seq![
                ActionView::Post(UiUpdateView::StatusMessage(reason)),
                ActionView::Post(UiUpdateView::CurrentScreen(0)),
                ActionView::Post(UiUpdateView::ActivePeerId(-1i32)),
                ActionView::Post(UiUpdateView::ActivePeerLogin(Seq::empty())),
                ActionView::Post(
                    UiUpdateView::Messages { peer_id: -1i32, entries: Seq::empty() },
                ),
            ]
        }),
{
    let event = UiEventView::Disconnected(reason);
    let t = after_event(s, open, event);
    assert(t.active_lines() =~= Seq::empty());
}

/// A history becomes all that is known of its conversation, message by
/// message, and nothing else changes. A message goes out exactly when the user
/// wrote it; it is read when the history says so, and if not, sent when the
/// user wrote it.
pub proof fn law_history_is_kept(
    s: ChatStateView,
    open: bool,
    conv_id: ConvId,
    entries: Seq<HistoryEntryView>,
)
    ensures
        ({
            let t = after_event(s, open, UiEventView::HistoryBatch { conv_id, entries });
            let msgs = t.messages[conv_id];
            &&& t == (ChatStateView { messages: t.messages, ..s })
            &&& t.messages.dom() == s.messages.dom().insert(conv_id)
            &&& forall|c: ConvId| c != conv_id ==> #[trigger] t.messages[c] == s.messages[c]
            &&& msgs.len() == entries.len()
            &&& forall|i: int|
                0 <= i < entries.len() ==> {
                    let e = entries[i];
                    let m = #[trigger] msgs[i];
                    &&& m.id == e.message_id
                    &&& m.sender_user_id == e.sender_user_id
                    &&& m.text == e.content
                    &&& m.outgoing <==> e.sender_user_id == s.my_user_id
                    &&& e.is_read ==> m.status == DeliveryStatus::Read
                    &&& !e.is_read && e.sender_user_id == s.my_user_id ==> m.status
                        == DeliveryStatus::Sent
                    &&& !e.is_read && e.sender_user_id != s.my_user_id ==> m.status
                        == DeliveryStatus::Sending
                }
        }),
{
    let t = after_event(s, open, UiEventView::HistoryBatch { conv_id, entries });
    assert(t.messages.dom() =~= s.messages.dom().insert(conv_id));
}

/// A history makes the window show the open dialog and scroll. If it is the
/// history of the open conversation and there is a channel, each of its
/// messages that somebody else wrote and that was not read is reported as read,
/// once and in its order; nothing else is sent.
pub proof fn law_history_is_shown_and_marked(
    s: ChatStateView,
    open: bool,
    conv_id: ConvId,
    entries: Seq<HistoryEntryView>,
)
    ensures
        ({
            let event = UiEventView::HistoryBatch { conv_id, entries };
            let actions = event_actions(s, open, event);
            let unread = entries.filter(
                |e: HistoryEntryView| e.sender_user_id != s.my_user_id && !e.is_read,
            );
            &&& actions.len() >= 3
            &&& posts_dialog(actions[0], after_event(s, open, event))
            &&& scroll_at(actions, 1)
            &&& actions.len() == 3 + (if open && s.active_conv == Some(conv_id) {
                unread.len()
            } else {
                0
            })
            &&& forall|i: int|
                3 <= i < actions.len() ==> #[trigger] actions[i] == ActionView::Send(
                    ClientMsgView::MarkRead { message_id: unread[i - 3].message_id },
                )
        }),
{
    let event = UiEventView::HistoryBatch { conv_id, entries };
    let t = after_event(s, open, event);
    law_dialog_is_shown(t);
    if s.active_conv == Some(conv_id) {
        law_history_is_kept(s, open, conv_id, entries);
        lemma_unread_of_history(s.my_user_id, entries, t.messages[conv_id]);
        law_unread_are_marked(t);
    }
}

/// What the client marks as read on a state: the messages of the open
/// conversation that came in and are not read, once each and in their order.
pub proof fn law_unread_are_marked(s: ChatStateView)
    ensures
        match s.active_conv {
            Some(c) => if s.messages.contains_key(c) {
                s.unread_ids() == s.messages[c].filter(
                    |m: ChatMessageView| !m.outgoing && m.status != DeliveryStatus::Read,
                ).map_values(|m: ChatMessageView| m.id)
            } else {
                s.unread_ids().len() == 0
            },
            None => s.unread_ids().len() == 0,
        },
{
    reveal(Seq::filter);
    if s.active_conv is Some && s.messages.contains_key(s.active_conv->0) {
        let msgs = s.messages[s.active_conv->0];
        lemma_same_filter(
            msgs,
            |m: ChatMessageView| crate::state::awaits_reading(m),
            |m: ChatMessageView| !m.outgoing && m.status != DeliveryStatus::Read,
        );
    }
}

proof fn lemma_same_filter<A>(s: Seq<A>, p: spec_fn(A) -> bool, q: spec_fn(A) -> bool)
    requires
        forall|a: A| #[trigger] p(a) == q(a),
    ensures
        s.filter(p) == s.filter(q),
    decreases s.len(),
{
    reveal(Seq::filter);
    if s.len() > 0 {
        lemma_same_filter(s.drop_last(), p, q);
        assert(p(s.last()) == q(s.last()));
    }
}

proof fn lemma_unread_of_history(
    me: i64,
    entries: Seq<HistoryEntryView>,
    msgs: Seq<ChatMessageView>,
)
    requires
        msgs.len() == entries.len(),
        forall|i: int|
            0 <= i < entries.len() ==> {
                let e = entries[i];
                let m = #[trigger] msgs[i];
                &&& m.id == e.message_id
                &&& m.outgoing <==> e.sender_user_id == me
                &&& m.status == DeliveryStatus::Read <==> e.is_read
            },
    ensures
        msgs.filter(
            |m: ChatMessageView| !m.outgoing && m.status != DeliveryStatus::Read,
        ).map_values(|m: ChatMessageView| m.id) == entries.filter(
            |e: HistoryEntryView| e.sender_user_id != me && !e.is_read,
        ).map_values(|e: HistoryEntryView| e.message_id),
    decreases entries.len(),
{
    reveal(Seq::filter);
    let keep = |m: ChatMessageView| !m.outgoing && m.status != DeliveryStatus::Read;
    let keep_entry = |e: HistoryEntryView| e.sender_user_id != me && !e.is_read;
    let id = |m: ChatMessageView| m.id;
    let entry_id = |e: HistoryEntryView| e.message_id;
    if entries.len() == 0 {
        assert(msgs.filter(keep).map_values(id) =~= entries.filter(keep_entry).map_values(
            entry_id,
        ));
    } else {
        let m = msgs.last();
        let e = entries.last();
        assert(m == msgs[msgs.len() - 1]);
        assert forall|i: int| 0 <= i < entries.len() - 1 implies {
            let e = entries.drop_last()[i];
            let m = #[trigger] msgs.drop_last()[i];
            &&& m.id == e.message_id
            &&& m.outgoing <==> e.sender_user_id == me
            &&& m.status == DeliveryStatus::Read <==> e.is_read
        } by {
            assert(msgs.drop_last()[i] == msgs[i]);
        }
        lemma_unread_of_history(me, entries.drop_last(), msgs.drop_last());
        let a = msgs.drop_last().filter(keep);
        let b = entries.drop_last().filter(keep_entry);
        assert(a.push(m).map_values(id) =~= a.map_values(id).push(m.id));
        assert(b.push(e).map_values(entry_id) =~= b.map_values(entry_id).push(e.message_id));
    }
}

/// When the server lets the user in, the client knows the user's number,
/// writes the session under the address and login that it was asked for, and
/// shows the main screen; nothing else changes.
pub proof fn law_let_in(s: ChatStateView, open: bool, user_id: i64, token: Seq<char>, expires_at: i64)
    ensures
        ({
            let event = UiEventView::Server(ServerMsgView::AuthOk { user_id, token, expires_at });
            &&& after_event(s, open, event) == (ChatStateView { my_user_id: user_id, ..s })
            &&& event_actions(s, open, event) == seq![
                ActionView::SaveSession(
                    AppSettingsView {
                        server_address: Some(s.server_addr),
                        login: Some(s.login),
                        token: Some(token),
                        user_id: Some(user_id),
                        expires_at: Some(expires_at),
                    },
                ),
                ActionView::Post(UiUpdateView::CurrentScreen(1)),
            ]
        }),
{
}

/// A refusal over the open conversation throws away that conversation, its
/// messages and its place beside its peer, and nothing else: the dialog stays
/// open, and other conversations stay as they were.
pub proof fn law_refused_conversation_is_thrown_away(
    s: ChatStateView,
    open: bool,
    code: ErrorCode,
    text: Seq<char>,
)
    requires
        code == ErrorCode::NotFriends || code == ErrorCode::NotAMember || code
            == ErrorCode::ConversationNotFound,
    ensures
        ({
            let event = UiEventView::Server(ServerMsgView::Error { code, text });
            let t = after_event(s, open, event);
            &&& t == (ChatStateView {
                active_conv: None,
                messages: t.messages,
                conv: t.conv,
                ..s
            })
            &&& forall|c: ConvId|
                #[trigger] t.messages.contains_key(c) <==> s.messages.contains_key(c)
                    && s.active_conv != Some(c)
            &&& forall|c: ConvId|
                t.messages.contains_key(c) ==> #[trigger] t.messages[c] == s.messages[c]
            &&& forall|p: i64|
                #[trigger] t.conv.contains_key(p) <==> s.conv.contains_key(p) && s.active_peer_id
                    != Some(p)
            &&& forall|p: i64| t.conv.contains_key(p) ==> #[trigger] t.conv[p] == s.conv[p]
        }),
{
}

/// What the client does about a refusal over the open conversation: it shows
/// the dialog, now empty, and says what happened, or asks the server again for
/// the conversation with the peer.
pub proof fn law_refused_conversation_is_told(
    s: ChatStateView,
    open: bool,
    text: Seq<char>,
)
    ensures
        ({
            let event = UiEventView::Server(
                ServerMsgView::Error { code: ErrorCode::NotFriends, text },
            );
            let actions = event_actions(s, open, event);
            &&& actions.len() == 2
            &&& posts_dialog(actions[0], after_event(s, open, event))
            &&& actions[1] == ActionView::Post(
                UiUpdateView::SearchResult(
                    "You are not friends with "@ + s.active_peer_login + ". Search for '"@
                        + s.active_peer_login + "' to send a request."@,
                ),
            )
        }),
        ({
            let event = UiEventView::Server(
                ServerMsgView::Error { code: ErrorCode::NotAMember, text },
            );
            let actions = event_actions(s, open, event);
            &&& actions.len() == 2
            &&& posts_dialog(actions[0], after_event(s, open, event))
            &&& actions[1] == ActionView::Post(
                UiUpdateView::StatusMessage("You are no longer a member of this conversation."@),
            )
        }),
        ({
            let event = UiEventView::Server(
                ServerMsgView::Error { code: ErrorCode::ConversationNotFound, text },
            );
            let actions = event_actions(s, open, event);
            &&& actions.len() == (if open && s.active_peer_id is Some {
                2int
            } else {
                1
            })
            &&& posts_dialog(actions[0], after_event(s, open, event))
            &&& actions.len() == 2 ==> actions[1] == ActionView::Send(
                ClientMsgView::ResolveDm { peer_user_id: s.active_peer_id->0 },
            )
        }),
{
    law_dialog_is_shown(s.without_active_conv());
}

/// Every other refusal leaves what the client knows as it was. It is told with
/// the search where it came of one, as a note where a message was too long, and
/// otherwise as the status, and then the window goes back to the login screen.
pub proof fn law_refusal_is_told(s: ChatStateView, open: bool, code: ErrorCode, text: Seq<char>)
    requires
        code != ErrorCode::NotFriends,
        code != ErrorCode::NotAMember,
        code != ErrorCode::ConversationNotFound,
    ensures
        ({
            let event = UiEventView::Server(ServerMsgView::Error { code, text });
            let actions = event_actions(s, open, event);
            &&& after_event(s, open, event) == s
            &&& if code == ErrorCode::AlreadyFriends || code == ErrorCode::NoPendingRequest || code
                == ErrorCode::CannotTargetYourself || code == ErrorCode::UserNotFound {
                actions == seq![ActionView::Post(UiUpdateView::SearchResult(text))]
            } else if code == ErrorCode::MessageTooLong {
                actions == seq![
                    ActionView::Post(UiUpdateView::StatusMessage("Message is too long."@)),
                ]
            } else {
                actions == seq![
                    ActionView::Post(UiUpdateView::StatusMessage(text)),
                    ActionView::Post(UiUpdateView::CurrentScreen(0)),
                ]
            }
        }),
{
}

/// A friends list from the server replaces the one known, and with it every
/// unread count; the window shows the new one.
pub proof fn law_friends_list_is_replaced(
    s: ChatStateView,
    open: bool,
    entries: Seq<UserBriefView>,
)
    ensures
        ({
            let event = UiEventView::Server(ServerMsgView::FriendList { entries });
            let t = after_event(s, open, event);
            let actions = event_actions(s, open, event);
            &&& t == (ChatStateView { friends: entries, unread: t.unread, ..s })
            &&& forall|k: i64| !(#[trigger] t.unread.contains_key(k))
            &&& actions.len() == 1
            &&& posts_friends(actions[0], t)
        }),
{
    let event = UiEventView::Server(ServerMsgView::FriendList { entries });
    law_friends_are_shown(after_event(s, open, event));
}

/// The pending requests from the server replace those known, and the names of
/// all who ask are shown in their order, if there are any.
pub proof fn law_pending_requests_are_told(
    s: ChatStateView,
    open: bool,
    entries: Seq<UserBriefView>,
)
    ensures
        ({
            let event = UiEventView::Server(ServerMsgView::PendingReqs { entries });
            let actions = event_actions(s, open, event);
            &&& after_event(s, open, event) == (ChatStateView { incoming_reqs: entries, ..s })
            &&& entries.len() == 0 ==> actions.len() == 0
            &&& entries.len() > 0 ==> actions == seq![
                ActionView::Post(
                    UiUpdateView::SearchResult(
                        "Pending friend requests from: "@ + joined(
                            Seq::new(entries.len(), |i: int| entries[i].login),
                            ", "@,
                        ),
                    ),
                ),
            ]
        }),
{
    assert(crate::controller::logins(entries) =~= Seq::new(
        entries.len(),
        |i: int| entries[i].login,
    ));
}

/// A request that comes in is pending after those known, and is told by the
/// name of who asks.
pub proof fn law_incoming_request_is_told(s: ChatStateView, open: bool, from: UserBriefView)
    ensures
        ({
            let event = UiEventView::Server(ServerMsgView::IncomingReq { from });
            &&& after_event(s, open, event) == (ChatStateView {
                incoming_reqs: s.incoming_reqs.push(from),
                ..s
            })
            &&& event_actions(s, open, event) == seq![
                ActionView::Post(
                    UiUpdateView::SearchResult(
                        "Incoming request from: "@ + from.login + ". Search for '"@ + from.login
                            + "' to accept!"@,
                    ),
                ),
            ]
        }),
{
}

/// A new friend stands after those known, and the window shows them all; one
/// who is listed already changes nothing and shows nothing.
pub proof fn law_new_friend_is_added(s: ChatStateView, open: bool, user: UserBriefView)
    ensures
        ({
            let event = UiEventView::Server(ServerMsgView::FriendAdded { user });
            let t = after_event(s, open, event);
            let actions = event_actions(s, open, event);
            &&& listed(s.friends, user.user_id) ==> t == s && actions.len() == 0
            &&& !listed(s.friends, user.user_id) ==> {
                &&& t == (ChatStateView { friends: s.friends.push(user), ..s })
                &&& actions.len() == 1
                &&& posts_friends(actions[0], t)
            }
        }),
{
    let event = UiEventView::Server(ServerMsgView::FriendAdded { user });
    law_friends_are_shown(after_event(s, open, event));
}

/// A user who was found and is a friend is only told of. Of another the server
/// is asked over an open channel: to accept, where the user has asked for
/// friendship, and then the request is no longer pending and all others are, in
/// their order; and otherwise to pass a request on.
pub proof fn law_found_user_is_asked_for(s: ChatStateView, open: bool, user: UserBriefView)
    ensures
        ({
            let event = UiEventView::Server(ServerMsgView::UserFound { user });
            let id = user.user_id;
            let t = after_event(s, open, event);
            let actions = event_actions(s, open, event);
            let told = ActionView::Post(
                UiUpdateView::SearchResult(
                    if listed(s.friends, id) {
                        user.login + " is already your friend."@
                    } else if listed(s.incoming_reqs, id) {
                        "Accepted friend request from "@ + user.login + "."@
                    } else {
                        "Sent friend request to "@ + user.login + "."@
                    },
                ),
            );
            &&& t == (ChatStateView { incoming_reqs: t.incoming_reqs, ..s })
            &&& if open && !listed(s.friends, id) && listed(s.incoming_reqs, id) {
                t.incoming_reqs == s.incoming_reqs.filter(|u: UserBriefView| u.user_id != id)
            } else {
                t.incoming_reqs == s.incoming_reqs
            }
            &&& if listed(s.friends, id) || !open {
                actions == seq![told]
            } else if listed(s.incoming_reqs, id) {
                actions == seq![
                    ActionView::Send(ClientMsgView::AcceptFriend { target_user_id: id }),
                    told,
                ]
            } else {
                actions == seq![
                    ActionView::Send(ClientMsgView::FriendReq { target_user_id: id }),
                    told,
                ]
            }
        }),
{
    let event = UiEventView::Server(ServerMsgView::UserFound { user });
    let id = user.user_id;
    let t = after_event(s, open, event);
    let actions = event_actions(s, open, event);
    assert(crate::state::lists(s.friends, id) == listed(s.friends, id));
    assert(crate::state::lists(s.incoming_reqs, id) == listed(s.incoming_reqs, id));
    if open && !listed(s.friends, id) && listed(s.incoming_reqs, id) {
        lemma_same_filter(
            s.incoming_reqs,
            |u: UserBriefView| u.user_id != user.user_id,
            |u: UserBriefView| u.user_id != id,
        );
        assert(t.incoming_reqs == crate::state::others(s.incoming_reqs, id));
    }
}

/// A search that found nobody is told, and that is all.
pub proof fn law_nobody_found_is_told(s: ChatStateView, open: bool)
    ensures
        ({
            let event = UiEventView::Server(ServerMsgView::UserNotFound);
            &&& after_event(s, open, event) == s
            &&& event_actions(s, open, event) == seq![
                ActionView::Post(UiUpdateView::SearchResult("User not found."@)),
            ]
        }),
{
}

/// The conversation that the server names for a person is kept under that
/// person. If the dialog with the person is open, it is the open conversation
/// from then on, is shown, and over an open channel its history is asked for.
pub proof fn law_named_conversation_is_kept(
    s: ChatStateView,
    open: bool,
    conv_id: ConvId,
    peer: UserBriefView,
)
    ensures
        ({
            let event = UiEventView::Server(ServerMsgView::DmResolved { conv_id, peer });
            let t = after_event(s, open, event);
            let actions = event_actions(s, open, event);
            let here = s.active_peer_id == Some(peer.user_id);
            &&& t == (ChatStateView {
                conv: s.conv.insert(peer.user_id, conv_id),
                active_conv: t.active_conv,
                ..s
            })
            &&& t.active_conv == (if here {
                Some(conv_id)
            } else {
                s.active_conv
            })
            &&& !here ==> actions.len() == 0
            &&& here ==> {
                &&& actions.len() == (if open {
                    2int
                } else {
                    1
                })
                &&& posts_dialog(actions[0], t)
                &&& open ==> actions[1] == ActionView::Send(ClientMsgView::HistoryReq { conv_id })
            }
        }),
{
    let event = UiEventView::Server(ServerMsgView::DmResolved { conv_id, peer });
    law_dialog_is_shown(after_event(s, open, event));
}

/// A report on the delivery of a message, `read` or only stored by the server.
pub open spec fn report_on(conv_id: ConvId, id: MessageId, read: bool) -> UiEventView {
    if read {
        UiEventView::Server(ServerMsgView::MsgRead { message_id: id, conv_id })
    } else {
        UiEventView::Server(ServerMsgView::MsgAck { message_id: id, conv_id })
    }
}

/// A report on the delivery of a message changes the first message of that
/// number in that conversation, and of it only the delivery state: a message
/// that was read is read from then on, and one that was stored is sent unless
/// it was further already. Then the dialog is shown.
pub proof fn law_report_changes_one_message(
    s: ChatStateView,
    open: bool,
    conv_id: ConvId,
    id: MessageId,
    read: bool,
    c: ConvId,
    i: int,
)
    requires
        s.messages.contains_key(c),
        0 <= i < s.messages[c].len(),
    ensures
        ({
            let event = report_on(conv_id, id, read);
            let t = after_event(s, open, event);
            let m = s.messages[c][i];
            let meant = c == conv_id && m.id == id && forall|j: int|
                0 <= j < i ==> (#[trigger] s.messages[c][j]).id != id;
            &&& t == (ChatStateView { messages: t.messages, ..s })
            &&& t.messages.dom() == s.messages.dom()
            &&& t.messages[c].len() == s.messages[c].len()
            &&& !meant ==> t.messages[c][i] == m
            &&& meant ==> t.messages[c][i] == (ChatMessageView {
                status: t.messages[c][i].status,
                ..m
            })
            &&& meant && read ==> t.messages[c][i].status == DeliveryStatus::Read
            &&& meant && !read && m.status == DeliveryStatus::Sending ==> t.messages[c][i].status
                == DeliveryStatus::Sent
            &&& meant && !read && m.status != DeliveryStatus::Sending ==> t.messages[c][i].status
                == m.status
        }),
{
    let t = after_event(s, open, report_on(conv_id, id, read));
    if s.messages.contains_key(conv_id) {
        crate::laws::lemma_raise_first(s.messages[conv_id], id, DeliveryStatus::Sent);
        crate::laws::lemma_raise_first(s.messages[conv_id], id, DeliveryStatus::Read);
    }
    assert(t.messages.dom() =~= s.messages.dom());
}

/// Raising a message to a delivery state changes the first message of that
/// number in that conversation, and of it only the state, which becomes the
/// given one if that is further.
pub proof fn law_raised_message(
    s: ChatStateView,
    conv_id: ConvId,
    id: MessageId,
    floor: DeliveryStatus,
    c: ConvId,
    i: int,
)
    requires
        s.messages.contains_key(c),
        0 <= i < s.messages[c].len(),
    ensures
        ({
            let t = s.with_raised(conv_id, id, floor);
            let m = s.messages[c][i];
            let further = m.status == DeliveryStatus::Sending || floor == DeliveryStatus::Read;
            let meant = c == conv_id && m.id == id && forall|j: int|
                0 <= j < i ==> (#[trigger] s.messages[c][j]).id != id;
            &&& t == (ChatStateView { messages: t.messages, ..s })
            &&& t.messages.dom() == s.messages.dom()
            &&& t.messages[c].len() == s.messages[c].len()
            &&& t.messages[c][i] == (if meant && further {
                ChatMessageView { status: floor, ..m }
            } else {
                m
            })
        }),
{
    if s.messages.contains_key(conv_id) {
        crate::laws::lemma_raise_first(s.messages[conv_id], id, floor);
    }
    assert(s.with_raised(conv_id, id, floor).messages.dom() =~= s.messages.dom());
}

/// A report on the delivery of a message makes the window show the dialog, and
/// that is all that it makes it do; it adds no conversation.
pub proof fn law_report_is_shown(
    s: ChatStateView,
    open: bool,
    conv_id: ConvId,
    id: MessageId,
    read: bool,
)
    ensures
        ({
            let event = report_on(conv_id, id, read);
            let t = after_event(s, open, event);
            let actions = event_actions(s, open, event);
            &&& t == (ChatStateView { messages: t.messages, ..s })
            &&& t.messages.dom() == s.messages.dom()
            &&& actions.len() == 1
            &&& posts_dialog(actions[0], t)
        }),
{
    let t = after_event(s, open, report_on(conv_id, id, read));
    law_dialog_is_shown(t);
    assert(t.messages.dom() =~= s.messages.dom());
}

/// A message that comes in.
pub open spec fn incoming(
    id: MessageId,
    conv_id: ConvId,
    sender: i64,
    timestamp: i64,
    text: Seq<char>,
) -> UiEventView {
    UiEventView::Server(
        ServerMsgView::RecvMsg {
            message_id: id,
            conv_id,
            sender_user_id: sender,
            timestamp,
            content: text,
        },
    )
}

/// A message that comes in stands last in its conversation, with its number,
/// its sender and its text as they came, as incoming and not read. Other
/// conversations and all else but the unread counts stay as they were.
pub proof fn law_incoming_message_is_kept(
    s: ChatStateView,
    open: bool,
    id: MessageId,
    conv_id: ConvId,
    sender: i64,
    timestamp: i64,
    text: Seq<char>,
)
    ensures
        ({
            let t = after_event(s, open, incoming(id, conv_id, sender, timestamp, text));
            let msgs = t.messages[conv_id];
            &&& t == (ChatStateView { messages: t.messages, unread: t.unread, ..s })
            &&& t.messages.dom() == s.messages.dom().insert(conv_id)
            &&& forall|c: ConvId| c != conv_id ==> #[trigger] t.messages[c] == s.messages[c]
            &&& msgs.len() == (if s.messages.contains_key(conv_id) {
                s.messages[conv_id].len() + 1
            } else {
                1
            })
            &&& forall|i: int|
                0 <= i < msgs.len() - 1 ==> #[trigger] msgs[i] == s.messages[conv_id][i]
            &&& msgs.last().id == id
            &&& msgs.last().sender_user_id == sender
            &&& msgs.last().text == text
            &&& !msgs.last().outgoing
            &&& msgs.last().status == DeliveryStatus::Sending
        }),
{
    let t = after_event(s, open, incoming(id, conv_id, sender, timestamp, text));
    assert(t.messages.dom() =~= s.messages.dom().insert(conv_id));
}

/// A message of the open conversation changes no unread count, is shown with a
/// scroll, and over an open channel it is reported as read.
pub proof fn law_incoming_message_is_shown(
    s: ChatStateView,
    open: bool,
    id: MessageId,
    conv_id: ConvId,
    sender: i64,
    timestamp: i64,
    text: Seq<char>,
)
    requires
        s.active_conv == Some(conv_id),
    ensures
        ({
            let event = incoming(id, conv_id, sender, timestamp, text);
            let t = after_event(s, open, event);
            let actions = event_actions(s, open, event);
            &&& t.unread == s.unread
            &&& actions.len() == (if open {
                4int
            } else {
                3
            })
            &&& posts_dialog(actions[0], t)
            &&& scroll_at(actions, 1)
            &&& open ==> actions[3] == ActionView::Send(ClientMsgView::MarkRead { message_id: id })
        }),
{
    law_dialog_is_shown(after_event(s, open, incoming(id, conv_id, sender, timestamp, text)));
}

/// A message of another conversation raises the unread count of its sender by
/// one and no other, and the friends list is shown with it; nothing is sent.
pub proof fn law_incoming_message_is_counted(
    s: ChatStateView,
    open: bool,
    id: MessageId,
    conv_id: ConvId,
    sender: i64,
    timestamp: i64,
    text: Seq<char>,
)
    requires
        s.active_conv != Some(conv_id),
        s.unread.contains_key(sender) ==> s.unread[sender] < usize::MAX,
    ensures
        ({
            let event = incoming(id, conv_id, sender, timestamp, text);
            let t = after_event(s, open, event);
            let actions = event_actions(s, open, event);
            &&& t.unread.dom() == s.unread.dom().insert(sender)
            &&& t.unread[sender] == (if s.unread.contains_key(sender) {
                s.unread[sender] + 1
            } else {
                1
            })
            &&& forall|k: i64| k != sender ==> #[trigger] t.unread[k] == s.unread[k]
            &&& actions.len() == 1
            &&& posts_friends(actions[0], t)
        }),
{
    let t = after_event(s, open, incoming(id, conv_id, sender, timestamp, text));
    law_friends_are_shown(t);
    assert(t.unread.dom() =~= s.unread.dom().insert(sender));
}

/// The line of a friend shows one more unread message after a message of that
/// friend in another conversation than it did before, as long as 32 bits hold
/// the count; the lines of the others show what they showed.
pub proof fn law_line_of_the_sender_shows_one_more(
    s: ChatStateView,
    open: bool,
    id: MessageId,
    conv_id: ConvId,
    sender: i64,
    timestamp: i64,
    text: Seq<char>,
    before: UiUpdateView,
    i: int,
)
    requires
        s.active_conv != Some(conv_id),
        s.unread.contains_key(sender) ==> s.unread[sender] < i32::MAX,
        shows_friends(before, s),
        0 <= i < s.friends.len(),
        s.unread.contains_key(s.friends[i].user_id) ==> s.unread[s.friends[i].user_id] <= i32::MAX,
    ensures
        ({
            let actions = event_actions(s, open, incoming(id, conv_id, sender, timestamp, text));
            &&& before matches UiUpdateView::FriendsList(old_lines)
            &&& actions[0] matches ActionView::Post(UiUpdateView::FriendsList(lines))
            &&& lines.len() == old_lines.len()
            &&& lines[i].login == old_lines[i].login
            &&& s.friends[i].user_id == sender ==> lines[i].unread == old_lines[i].unread + 1
            &&& s.friends[i].user_id != sender ==> lines[i].unread == old_lines[i].unread
        }),
{
    law_incoming_message_is_counted(s, open, id, conv_id, sender, timestamp, text);
}

/// An event is refused only where the count of unread messages that it would
/// raise is the largest number there is.
pub proof fn law_only_a_full_count_refuses(s: ChatStateView, event: UiEventView)
    ensures
        can_count(s, event) <==> match event {
            UiEventView::Server(
                ServerMsgView::RecvMsg { conv_id, sender_user_id, .. },
            ) => s.active_conv == Some(conv_id) || !s.unread.contains_key(sender_user_id)
                || s.unread[sender_user_id] < usize::MAX,
            _ => true,
        },
{
}

/// The messages that only the connection has a use for, and those that nobody
/// has, change nothing and make the client do nothing.
pub proof fn law_other_messages_do_nothing(s: ChatStateView, open: bool, msg: ServerMsgView)
    requires
        msg is PowChallenge || msg is AuthFailed || msg is HistoryMsg || msg is HistoryEnd
            || msg is Other,
    ensures
        after_event(s, open, UiEventView::Server(msg)) == s,
        event_actions(s, open, UiEventView::Server(msg)).len() == 0,
{
}

} // verus!
