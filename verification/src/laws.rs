//! What holds of the client as a whole, whatever its user and the server do.

use crate::controller::{after_auto_login, after_connect, after_event, after_open_chat, after_send};
use crate::controller::{auto_login_actions, can_resume, connect_actions, event_actions, marks};
use crate::controller::{open_chat_actions, received, send_actions, sends, stored, AppControllerView};
use crate::effects::{ActionView, UiUpdateView};
use crate::protocol::{ClientMsgView, ConvId, ErrorCode, MessageId, ServerMsgView, UserBriefView};
use crate::settings::AppSettingsView;
use crate::state::{awaits_reading, first_at, lists, raise_first, raised, scroll_actions};
use crate::state::ChatStateView;
use crate::text::blank;
use crate::types::{status_number, ChatMessageView, DeliveryStatus, HistoryEntryView, UiEventView};
use vstd::prelude::*;

verus! {

/// No message is handed on.
pub open spec fn sends_nothing(actions: Seq<ActionView>) -> bool {
    forall|i: int| 0 <= i < actions.len() ==> !((#[trigger] actions[i]) is Send)
}

/// Without a channel to a network task no event makes the client send anything.
pub proof fn law_events_send_nothing_without_channel(s: ChatStateView, event: UiEventView)
    ensures
        sends_nothing(event_actions(s, false, event)),
{
}

/// Without a channel the opening of a dialog and the sending of a text hand
/// nothing to the network.
pub proof fn law_window_sends_nothing_without_channel(
    t: ChatStateView,
    peer: i32,
    login: Seq<char>,
    id: MessageId,
    text: Seq<char>,
)
    ensures
        sends_nothing(open_chat_actions(t, false, peer, login)),
        sends_nothing(send_actions(t, false, id, text)),
{
}

/// Every rebuilding of the friends list or of the dialog among `actions` shows
/// the state `t`.
pub open spec fn shows_only(t: ChatStateView, actions: Seq<ActionView>) -> bool {
    forall|i: int|
        0 <= i < actions.len() ==> match #[trigger] actions[i] {
            ActionView::Show(UiUpdateView::FriendsList(lines)) => lines == t.friend_lines(),
            ActionView::Post(UiUpdateView::FriendsList(lines)) => lines == t.friend_lines(),
            ActionView::Show(UiUpdateView::Messages { peer_id, entries }) => peer_id
                == t.shown_peer() && entries == t.active_lines(),
            ActionView::Post(UiUpdateView::Messages { peer_id, entries }) => peer_id
                == t.shown_peer() && entries == t.active_lines(),
            _ => true,
        }
}

/// Whatever an event makes the window show of friends and messages is rebuilt
/// from the state after the event.
pub proof fn law_events_show_the_state(s: ChatStateView, open: bool, event: UiEventView)
    ensures
        shows_only(after_event(s, open, event), event_actions(s, open, event)),
{
}

/// Whatever the opening of a dialog and the sending of a text make the window
/// show of friends and messages is rebuilt from the state after them.
pub proof fn law_window_shows_the_state(
    s: ChatStateView,
    open: bool,
    peer: i32,
    login: Seq<char>,
    id: MessageId,
    text: Seq<char>,
)
    ensures
        shows_only(
            after_open_chat(s, peer as i64, login),
            open_chat_actions(after_open_chat(s, peer as i64, login), open, peer, login),
        ),
        shows_only(
            after_send(s, id, text),
            send_actions(after_send(s, id, text), open, id, text),
        ),
{
}

/// Raising changes the first message of that number and no other.
pub proof fn lemma_raise_first(msgs: Seq<ChatMessageView>, id: MessageId, floor: DeliveryStatus)
    ensures
        raise_first(msgs, id, floor).len() == msgs.len(),
        forall|i: int|
            0 <= i < msgs.len() ==> #[trigger] raise_first(msgs, id, floor)[i] == (if first_at(
                msgs,
                id,
                i,
            ) {
                raised(msgs[i], floor)
            } else {
                msgs[i]
            }),
{
    if exists|i: int| first_at(msgs, id, i) {
        let k = choose|i: int| first_at(msgs, id, i);
        assert forall|i: int| first_at(msgs, id, i) implies i == k by {
            if i < k {
                assert(msgs[i].id != id);
            } else if k < i {
                assert(msgs[k].id != id);
            }
        }
    }
}

/// A report of the server on the delivery of a message.
pub open spec fn delivery_report(conv_id: ConvId, id: MessageId, read: bool) -> UiEventView {
    if read {
        UiEventView::Server(ServerMsgView::MsgRead { message_id: id, conv_id })
    } else {
        UiEventView::Server(ServerMsgView::MsgAck { message_id: id, conv_id })
    }
}

/// A report on delivery adds and removes no message, changes nothing of a
/// message but its delivery state, and never moves that state back.
pub proof fn law_delivery_never_moves_back(
    s: ChatStateView,
    open: bool,
    conv_id: ConvId,
    id: MessageId,
    read: bool,
    c: ConvId,
    i: int,
)
    requires
        s.messages.contains_key(c),
        0 <= i < s.messages[c].len(),
    ensures
        ({
            let t = after_event(s, open, delivery_report(conv_id, id, read));
            &&& t.messages.dom() == s.messages.dom()
            &&& t.messages[c].len() == s.messages[c].len()
            &&& t.messages[c][i] == (ChatMessageView {
                status: t.messages[c][i].status,
                ..s.messages[c][i]
            })
            &&& status_number(t.messages[c][i].status) >= status_number(s.messages[c][i].status)
            &&& t == (ChatStateView { messages: t.messages, ..s })
        }),
{
    let t = after_event(s, open, delivery_report(conv_id, id, read));
    if s.messages.contains_key(conv_id) {
        lemma_raise_first(s.messages[conv_id], id, DeliveryStatus::Sent);
        lemma_raise_first(s.messages[conv_id], id, DeliveryStatus::Read);
    }
    assert(t.messages.dom() =~= s.messages.dom());
}

/// An acknowledgement that comes after a message was read changes nothing.
pub proof fn law_late_acknowledgement_changes_nothing(
    s: ChatStateView,
    open: bool,
    conv_id: ConvId,
    id: MessageId,
)
    ensures
        ({
            let t = after_event(s, open, delivery_report(conv_id, id, true));
            after_event(t, open, delivery_report(conv_id, id, false)) == t
        }),
{
    let t = after_event(s, open, delivery_report(conv_id, id, true));
    let u = after_event(t, open, delivery_report(conv_id, id, false));
    if s.messages.contains_key(conv_id) {
        let before = s.messages[conv_id];
        let read = t.messages[conv_id];
        lemma_raise_first(before, id, DeliveryStatus::Read);
        lemma_raise_first(read, id, DeliveryStatus::Sent);
        assert forall|i: int| 0 <= i < read.len() implies #[trigger] raise_first(
            read,
            id,
            DeliveryStatus::Sent,
        )[i] == read[i] by {
            if first_at(read, id, i) {
                assert(first_at(before, id, i)) by {
                    assert forall|j: int| 0 <= j < i implies (#[trigger] before[j]).id != id by {
                        assert(read[j].id == before[j].id);
                    }
                }
            }
        }
        assert(u.messages[conv_id] =~= read);
        assert(u.messages =~= t.messages);
    }
}

/// A message that went out under an identifier of its own stands last in its
/// conversation as being sent; the server's reports on it make it sent and
/// then read, and leave the messages before it as they were.
pub proof fn law_sent_message_is_followed(
    s: ChatStateView,
    open: bool,
    conv_id: ConvId,
    id: MessageId,
    text: Seq<char>,
)
    requires
        s.active_conv == Some(conv_id),
        forall|i: int|
            0 <= i < s.messages_of(conv_id).len() ==> (#[trigger] s.messages_of(conv_id)[i]).id
                != id,
    ensures
        ({
            let old_msgs = s.messages_of(conv_id);
            let t = after_send(s, id, text);
            let acked = after_event(t, open, delivery_report(conv_id, id, false));
            let read = after_event(acked, open, delivery_report(conv_id, id, true));
            let m = ChatMessageView {
                id,
                sender_user_id: s.my_user_id,
                text,
                outgoing: true,
                status: DeliveryStatus::Sending,
            };
            &&& t.messages_of(conv_id) == old_msgs.push(m)
            &&& acked.messages_of(conv_id) == old_msgs.push(
                ChatMessageView { status: DeliveryStatus::Sent, ..m },
            )
            &&& read.messages_of(conv_id) == old_msgs.push(
                ChatMessageView { status: DeliveryStatus::Read, ..m },
            )
        }),
{
    let t = after_send(s, id, text);
    let acked = after_event(t, open, delivery_report(conv_id, id, false));
    lemma_raise_last(t.messages_of(conv_id), id, DeliveryStatus::Sent);
    lemma_raise_last(acked.messages_of(conv_id), id, DeliveryStatus::Read);
}

proof fn lemma_raise_last(msgs: Seq<ChatMessageView>, id: MessageId, floor: DeliveryStatus)
    requires
        msgs.len() > 0,
        msgs.last().id == id,
        forall|i: int| 0 <= i < msgs.len() - 1 ==> (#[trigger] msgs[i]).id != id,
    ensures
        raise_first(msgs, id, floor) == msgs.drop_last().push(raised(msgs.last(), floor)),
{
    lemma_raise_first(msgs, id, floor);
    assert(first_at(msgs, id, msgs.len() - 1));
    assert(raise_first(msgs, id, floor) =~= msgs.drop_last().push(raised(msgs.last(), floor)));
}

/// A refusal that throws the conversation of the open dialog away.
pub open spec fn ends_conversation(code: ErrorCode) -> bool {
    code == ErrorCode::NotFriends || code == ErrorCode::NotAMember || code
        == ErrorCode::ConversationNotFound
}

/// A refusal that throws the conversation of the open dialog away leaves the
/// dialog open and empty and the other conversations as they were. When the
/// dialog is opened again, the server is asked which conversation it is.
pub proof fn law_lost_conversation_is_asked_for_again(
    s: ChatStateView,
    open: bool,
    code: ErrorCode,
    text: Seq<char>,
    peer: i32,
    login: Seq<char>,
)
    requires
        s.active_peer_id == Some(peer as i64),
        ends_conversation(code),
    ensures
        ({
            let t = after_event(
                s,
                open,
                UiEventView::Server(ServerMsgView::Error { code, text }),
            );
            let again = after_open_chat(t, peer as i64, login);
            &&& t.active_peer_id == s.active_peer_id
            &&& t.active_peer_login == s.active_peer_login
            &&& t.active_lines().len() == 0
            &&& forall|c: ConvId|
                s.active_conv != Some(c) ==> #[trigger] t.messages_of(c) == s.messages_of(c)
            &&& again.active_conv is None
            &&& open_chat_actions(again, true, peer, login).contains(
                ActionView::Send(ClientMsgView::ResolveDm { peer_user_id: peer as i64 }),
            )
        }),
{
    let t = after_event(s, open, UiEventView::Server(ServerMsgView::Error { code, text }));
    let again = after_open_chat(t, peer as i64, login);
    assert(t == s.without_active_conv());
    assert(open_chat_actions(again, true, peer, login)[3] == ActionView::Send(
        ClientMsgView::ResolveDm { peer_user_id: peer as i64 },
    ));
}

/// A conversation that the server has named once is known whenever its dialog
/// is opened: its history is asked for and the server is not asked which it
/// is.
pub proof fn law_named_conversation_is_remembered(
    s: ChatStateView,
    open: bool,
    conv_id: ConvId,
    user: UserBriefView,
    peer: i32,
    login: Seq<char>,
)
    requires
        user.user_id == peer as i64,
    ensures
        ({
            let t = after_event(
                s,
                open,
                UiEventView::Server(ServerMsgView::DmResolved { conv_id, peer: user }),
            );
            let opened = after_open_chat(t, peer as i64, login);
            let actions = open_chat_actions(opened, true, peer, login);
            &&& opened.active_conv == Some(conv_id)
            &&& actions.contains(ActionView::Send(ClientMsgView::HistoryReq { conv_id }))
            &&& forall|i: int|
                0 <= i < actions.len() ==> !((#[trigger] actions[i]) matches ActionView::Send(
                    ClientMsgView::ResolveDm { .. },
                ))
        }),
{
    let t = after_event(
        s,
        open,
        UiEventView::Server(ServerMsgView::DmResolved { conv_id, peer: user }),
    );
    let opened = after_open_chat(t, peer as i64, login);
    let actions = open_chat_actions(opened, true, peer, login);
    assert(actions[3] == ActionView::Send(ClientMsgView::HistoryReq { conv_id }));
}

/// A message of a conversation that is not open counts as one more unread
/// message of its sender and of nobody else.
pub proof fn law_message_elsewhere_is_counted(
    s: ChatStateView,
    open: bool,
    id: MessageId,
    conv_id: ConvId,
    sender: i64,
    timestamp: i64,
    text: Seq<char>,
    other: i64,
)
    requires
        s.active_conv != Some(conv_id),
        s.unread_of(sender) < usize::MAX,
    ensures
        ({
            let t = after_event(
                s,
                open,
                UiEventView::Server(
                    ServerMsgView::RecvMsg {
                        message_id: id,
                        conv_id,
                        sender_user_id: sender,
                        timestamp,
                        content: text,
                    },
                ),
            );
            &&& t.unread_of(sender) == s.unread_of(sender) + 1
            &&& other != sender ==> t.unread_of(other) == s.unread_of(other)
            &&& t.messages_of(conv_id) == s.messages_of(conv_id).push(received(id, sender, text))
        }),
{
}

/// A message of the open conversation is shown and reported as read, and
/// leaves every unread count as it was.
pub proof fn law_message_in_open_dialog_is_read(
    s: ChatStateView,
    id: MessageId,
    conv_id: ConvId,
    sender: i64,
    timestamp: i64,
    text: Seq<char>,
)
    requires
        s.active_conv == Some(conv_id),
    ensures
        ({
            let event = UiEventView::Server(
                ServerMsgView::RecvMsg {
                    message_id: id,
                    conv_id,
                    sender_user_id: sender,
                    timestamp,
                    content: text,
                },
            );
            let t = after_event(s, true, event);
            &&& t.unread == s.unread
            &&& t.active_messages() == s.active_messages().push(received(id, sender, text))
            &&& event_actions(s, true, event).contains(
                ActionView::Send(ClientMsgView::MarkRead { message_id: id }),
            )
        }),
{
    let event = UiEventView::Server(
        ServerMsgView::RecvMsg {
            message_id: id,
            conv_id,
            sender_user_id: sender,
            timestamp,
            content: text,
        },
    );
    assert(event_actions(s, true, event)[3] == ActionView::Send(
        ClientMsgView::MarkRead { message_id: id },
    ));
}

/// The opening of a dialog sets the unread count of its peer to zero and
/// leaves the others.
pub proof fn law_opening_clears_one_count(
    s: ChatStateView,
    peer: i64,
    login: Seq<char>,
    other: i64,
)
    ensures
        after_open_chat(s, peer, login).unread_of(peer) == 0,
        other != peer ==> after_open_chat(s, peer, login).unread_of(other) == s.unread_of(other),
{
}

/// Exactly the messages of the open dialog that came from the peer and are not
/// marked as read are reported as read.
pub proof fn law_only_unread_messages_are_marked(s: ChatStateView, id: MessageId)
    ensures
        s.unread_ids().contains(id) <==> exists|i: int|
            {
                &&& 0 <= i < s.active_messages().len()
                &&& awaits_reading(#[trigger] s.active_messages()[i])
                &&& s.active_messages()[i].id == id
            },
{
    let all = s.active_messages();
    let keep = |m: ChatMessageView| awaits_reading(m);
    let kept = all.filter(keep);
    all.filter_lemma(keep);
    lemma_filter_origin(all, keep);
    if s.unread_ids().contains(id) {
        let k = choose|k: int| 0 <= k < s.unread_ids().len() && s.unread_ids()[k] == id;
        assert(kept.contains(kept[k]));
        let i = choose|i: int| 0 <= i < all.len() && all[i] == kept[k];
        assert(keep(all[i]));
        assert(awaits_reading(all[i]));
    }
    if exists|i: int| 0 <= i < all.len() && awaits_reading(#[trigger] all[i]) && all[i].id == id {
        let i = choose|i: int|
            0 <= i < all.len() && awaits_reading(#[trigger] all[i]) && all[i].id == id;
        assert(all.contains(all[i]));
        assert(keep(all[i]));
        assert(kept.contains(all[i]));
        let k = choose|k: int| 0 <= k < kept.len() && kept[k] == all[i];
        assert(s.unread_ids()[k] == id);
    }
}

proof fn lemma_filter_origin<A>(s: Seq<A>, keep: spec_fn(A) -> bool)
    ensures
        forall|k: int|
            0 <= k < s.filter(keep).len() ==> s.contains(#[trigger] s.filter(keep)[k]),
    decreases s.len(),
{
    reveal(Seq::filter);
    if s.len() > 0 {
        let rest = s.drop_last();
        lemma_filter_origin(rest, keep);
        assert forall|k: int| 0 <= k < s.filter(keep).len() implies s.contains(
            #[trigger] s.filter(keep)[k],
        ) by {
            if k < rest.filter(keep).len() {
                let x = rest.filter(keep)[k];
                let i = choose|i: int| 0 <= i < rest.len() && rest[i] == x;
                assert(s[i] == x);
            } else {
                assert(s[s.len() - 1] == s.filter(keep)[k]);
            }
        }
    }
}

/// A message of the history that came from somebody else and was not read.
pub open spec fn unread_entry(me: i64, e: HistoryEntryView) -> bool {
    e.sender_user_id != me && !e.is_read
}

/// A history replaces what was known of its conversation. If that is open, the
/// unread messages of the history that the user did not write are reported as
/// read, in their order, and no others.
pub proof fn law_history_replaces_and_marks(
    s: ChatStateView,
    conv_id: ConvId,
    entries: Seq<HistoryEntryView>,
)
    ensures
        ({
            let event = UiEventView::HistoryBatch { conv_id, entries };
            let t = after_event(s, true, event);
            &&& t.messages_of(conv_id) == entries.map_values(
                |e: HistoryEntryView| stored(s.my_user_id, e),
            )
            &&& forall|c: ConvId| c != conv_id ==> #[trigger] t.messages_of(c) == s.messages_of(c)
            &&& s.active_conv == Some(conv_id) ==> t.unread_ids() == entries.filter(
                |e: HistoryEntryView| unread_entry(s.my_user_id, e),
            ).map_values(|e: HistoryEntryView| e.message_id)
            &&& s.active_conv == Some(conv_id) ==> event_actions(s, true, event) == seq![
                ActionView::Post(t.messages_update()),
            ] + scroll_actions() + sends(true, marks(t.unread_ids()))
        }),
{
    let me = s.my_user_id;
    lemma_stored_unread(me, entries);
}

proof fn lemma_stored_unread(me: i64, entries: Seq<HistoryEntryView>)
    ensures
        entries.map_values(|e: HistoryEntryView| stored(me, e)).filter(
            |m: ChatMessageView| awaits_reading(m),
        ).map_values(|m: ChatMessageView| m.id) == entries.filter(
            |e: HistoryEntryView| unread_entry(me, e),
        ).map_values(|e: HistoryEntryView| e.message_id),
    decreases entries.len(),
{
    reveal(Seq::filter);
    let store = |e: HistoryEntryView| stored(me, e);
    let keep = |m: ChatMessageView| awaits_reading(m);
    let keep_entry = |e: HistoryEntryView| unread_entry(me, e);
    let id = |m: ChatMessageView| m.id;
    let entry_id = |e: HistoryEntryView| e.message_id;
    let all = entries.map_values(store);
    if entries.len() == 0 {
        assert(all.filter(keep).map_values(id) =~= entries.filter(keep_entry).map_values(entry_id));
    } else {
        let rest = entries.drop_last();
        lemma_stored_unread(me, rest);
        assert(all.drop_last() =~= rest.map_values(store));
        assert(all.last() == stored(me, entries.last()));
        let a = rest.map_values(store).filter(keep);
        let b = rest.filter(keep_entry);
        assert(a.map_values(id) == b.map_values(entry_id));
        assert(a.push(all.last()).map_values(id) =~= a.map_values(id).push(all.last().id));
        assert(b.push(entries.last()).map_values(entry_id) =~= b.map_values(entry_id).push(
            entries.last().message_id,
        ));
    }
}

/// No user is listed twice.
pub open spec fn distinct_users(users: Seq<UserBriefView>) -> bool {
    forall|i: int, j: int|
        0 <= i < j < users.len() ==> (#[trigger] users[i]).user_id != (#[trigger] users[j]).user_id
}

/// A new friend is listed, nobody is listed twice on that account, and the same
/// report once more changes nothing.
pub proof fn law_friend_is_listed_once(s: ChatStateView, open: bool, user: UserBriefView)
    requires
        distinct_users(s.friends),
    ensures
        ({
            let event = UiEventView::Server(ServerMsgView::FriendAdded { user });
            let t = after_event(s, open, event);
            &&& lists(t.friends, user.user_id)
            &&& distinct_users(t.friends)
            &&& after_event(t, open, event) == t
            &&& event_actions(t, open, event) == Seq::<ActionView>::empty()
        }),
{
    let event = UiEventView::Server(ServerMsgView::FriendAdded { user });
    let t = after_event(s, open, event);
    if !lists(s.friends, user.user_id) {
        assert(t.friends[s.friends.len() as int] == user);
        assert forall|i: int, j: int| 0 <= i < j < t.friends.len() implies (
        #[trigger] t.friends[i]).user_id != (#[trigger] t.friends[j]).user_id by {
            assert(t.friends[i] == s.friends[i]);
            if j < s.friends.len() {
                assert(t.friends[j] == s.friends[j]);
            }
        }
    }
}

/// A search that finds somebody who has asked for friendship accepts, over an
/// open channel, and the request is then no longer pending; those of others
/// are.
pub proof fn law_found_request_is_accepted(s: ChatStateView, user: UserBriefView, other: i64)
    requires
        lists(s.incoming_reqs, user.user_id),
        !lists(s.friends, user.user_id),
    ensures
        ({
            let event = UiEventView::Server(ServerMsgView::UserFound { user });
            let t = after_event(s, true, event);
            &&& event_actions(s, true, event).contains(
                ActionView::Send(ClientMsgView::AcceptFriend { target_user_id: user.user_id }),
            )
            &&& !lists(t.incoming_reqs, user.user_id)
            &&& other != user.user_id ==> lists(t.incoming_reqs, other) == lists(
                s.incoming_reqs,
                other,
            )
        }),
{
    let event = UiEventView::Server(ServerMsgView::UserFound { user });
    let t = after_event(s, true, event);
    assert(event_actions(s, true, event)[0] == ActionView::Send(
        ClientMsgView::AcceptFriend { target_user_id: user.user_id },
    ));
    let keep = |u: UserBriefView| u.user_id != user.user_id;
    let all = s.incoming_reqs;
    let kept = all.filter(keep);
    all.filter_lemma(keep);
    lemma_filter_origin(all, keep);
    assert forall|i: int| 0 <= i < kept.len() implies (#[trigger] kept[i]).user_id
        != user.user_id by {
        assert(keep(kept[i]));
    }
    if other != user.user_id {
        if lists(kept, other) {
            let k = choose|k: int| 0 <= k < kept.len() && (#[trigger] kept[k]).user_id == other;
            assert(all.contains(kept[k]));
            let i = choose|i: int| 0 <= i < all.len() && all[i] == kept[k];
            assert(all[i].user_id == other);
        }
        if lists(all, other) {
            let i = choose|i: int| 0 <= i < all.len() && (#[trigger] all[i]).user_id == other;
            assert(keep(all[i]));
            assert(kept.contains(all[i]));
            let k = choose|k: int| 0 <= k < kept.len() && kept[k] == all[i];
            assert(kept[k].user_id == other);
        }
    }
}

/// The end of a connection, however it comes about, leaves no dialog open and
/// nothing of conversations, messages and counts; friends, requests and where
/// the user logs in stay.
pub proof fn law_disconnection_forgets_the_session(s: ChatStateView, open: bool, reason: Seq<char>)
    ensures
        ({
            let t = after_event(s, open, UiEventView::Disconnected(reason));
            &&& t == s.disconnected()
            &&& t.wf()
            &&& t.shown_peer() == -1
            &&& t.active_lines().len() == 0
            &&& forall|c: ConvId| (#[trigger] t.messages_of(c)).len() == 0
            &&& forall|u: i64| #[trigger] t.unread_of(u) == 0
            &&& t.friends == s.friends
            &&& t.incoming_reqs == s.incoming_reqs
            &&& t.server_addr == s.server_addr
            &&& t.login == s.login
        }),
{
}

/// The conversation of the open dialog is always the one known for its peer:
/// no event, no opening of a dialog and no sending of a text breaks this.
pub proof fn law_open_conversation_is_the_known_one(
    s: ChatStateView,
    open: bool,
    event: UiEventView,
    peer: i64,
    login: Seq<char>,
    id: MessageId,
    text: Seq<char>,
)
    requires
        s.wf(),
    ensures
        ChatStateView::initial().wf(),
        after_event(s, open, event).wf(),
        after_open_chat(s, peer, login).wf(),
        after_send(s, id, text).wf(),
        s.disconnected().wf(),
{
}

/// When the server lets the user in, the session is saved, and until it
/// expires the program resumes it on its next start: it connects to the same
/// server under the same login with the stored token in place of a password.
pub proof fn law_session_is_resumed(
    s: ChatStateView,
    open: bool,
    user_id: i64,
    token: Seq<char>,
    expires_at: i64,
    fresh: AppControllerView,
    now: i64,
)
    requires
        !blank(token),
        now < expires_at,
        !fresh.sender_slot,
    ensures
        ({
            let event = UiEventView::Server(ServerMsgView::AuthOk { user_id, token, expires_at });
            let saved = AppSettingsView::session(
                s.server_addr,
                s.login,
                token,
                user_id,
                expires_at,
            );
            &&& event_actions(s, open, event).contains(ActionView::SaveSession(saved))
            &&& can_resume(saved, now)
            &&& after_auto_login(fresh, saved, now).sender_slot
            &&& auto_login_actions(false, saved, now).contains(
                ActionView::StartNetwork {
                    server_addr: s.server_addr,
                    login: s.login,
                    password: Seq::empty(),
                    is_register: false,
                },
            )
            &&& auto_login_actions(false, saved, now).contains(ActionView::SaveSession(saved))
        }),
{
    let event = UiEventView::Server(ServerMsgView::AuthOk { user_id, token, expires_at });
    let saved = AppSettingsView::session(s.server_addr, s.login, token, user_id, expires_at);
    assert(event_actions(s, open, event)[0] == ActionView::SaveSession(saved));
    let actions = auto_login_actions(false, saved, now);
    assert(actions[2] == ActionView::SaveSession(saved));
    assert(actions[4] == ActionView::StartNetwork {
        server_addr: s.server_addr,
        login: s.login,
        password: Seq::empty(),
        is_register: false,
    });
}

/// A session that was cleared or has expired is not resumed: the program only
/// shows the stored address and login.
pub proof fn law_ended_session_is_not_resumed(
    stored: AppSettingsView,
    c: AppControllerView,
    now: i64,
)
    ensures
        after_auto_login(c, stored.without_session(), now) == c,
        stored.expires_at matches Some(t) && t <= now ==> after_auto_login(c, stored, now) == c,
{
}

/// A request to connect starts a network task exactly when there is none, and
/// after it a further request, whatever it asks for, starts no second one.
pub proof fn law_one_network_task(
    c: AppControllerView,
    stored: AppSettingsView,
    addr: Seq<char>,
    login: Seq<char>,
    password: Seq<char>,
    is_register: bool,
    next_stored: AppSettingsView,
    next_addr: Seq<char>,
    next_login: Seq<char>,
    next_password: Seq<char>,
    next_is_register: bool,
)
    ensures
        ({
            let actions = connect_actions(
                c.sender_slot,
                stored,
                addr,
                login,
                password,
                is_register,
            );
            let d = after_connect(c, addr, login);
            let again = connect_actions(
                d.sender_slot,
                next_stored,
                next_addr,
                next_login,
                next_password,
                next_is_register,
            );
            &&& actions.contains(
                ActionView::StartNetwork { server_addr: addr, login, password, is_register },
            ) <==> !c.sender_slot
            &&& forall|i: int|
                0 <= i < again.len() ==> !((#[trigger] again[i]) is StartNetwork)
        }),
{
    if !c.sender_slot {
        assert(connect_actions(false, stored, addr, login, password, is_register)[2]
            == ActionView::StartNetwork { server_addr: addr, login, password, is_register });
    }
}

} // verus!
