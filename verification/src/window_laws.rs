//! What every act of the user does, said of what the client knows before and
//! after it and of the actions that it asks for.

use crate::controller::{after_auto_login, after_connect, after_open_chat, after_send};
use crate::controller::{auto_login_actions, can_resume, connect_actions, disconnect_actions};
use crate::controller::{goes_out, held_back_actions, open_chat_actions, ratable, resaved};
use crate::controller::{score_text, send_actions, sends, show_strength, AppControllerView};
use crate::effects::{ActionView, UiUpdateView};
use crate::event_laws::{law_unread_are_marked, posts_friends, scroll_at};
use crate::protocol::{ClientMsgView, ConvId, MessageId};
use crate::settings::AppSettingsView;
use crate::shown::{law_dialog_is_shown, law_friends_are_shown, shows_dialog};
use crate::state::ChatStateView;
use crate::text::{blank, decimal};
use crate::types::{ChatMessageView, DeliveryStatus};
use vstd::prelude::*;
use vstd::utf8::encode_utf8;

verus! {

/// The action makes the window show the open dialog of `s` at once.
pub open spec fn shows_dialog_now(action: ActionView, s: ChatStateView) -> bool {
    action matches ActionView::Show(update) && shows_dialog(update, s)
}

/// A client that was just made knows nothing and has no channel.
pub proof fn law_new_client_knows_nothing()
    ensures
        ({
            let s = ChatStateView::initial();
            &&& s.my_user_id == 0
            &&& s.active_peer_id is None
            &&& s.active_peer_login.len() == 0
            &&& s.active_conv is None
            &&& forall|k: i64| !(#[trigger] s.conv.contains_key(k))
            &&& s.server_addr.len() == 0
            &&& s.login.len() == 0
            &&& s.friends.len() == 0
            &&& forall|k: ConvId| !(#[trigger] s.messages.contains_key(k))
            &&& s.incoming_reqs.len() == 0
            &&& forall|k: i64| !(#[trigger] s.unread.contains_key(k))
        }),
{
}

/// A text that goes out stands last in the open conversation, with its number
/// and its words as they were given, as the user's own and yet to be sent.
/// Every other message and all else that the client knows stay as they were.
pub proof fn law_sent_text_is_kept(s: ChatStateView, id: MessageId, text: Seq<char>, conv_id: ConvId)
    requires
        s.active_conv == Some(conv_id),
    ensures
        ({
            let t = after_send(s, id, text);
            let msgs = t.messages[conv_id];
            &&& t == (ChatStateView { messages: t.messages, ..s })
            &&& t.messages.dom() == s.messages.dom().insert(conv_id)
            &&& forall|c: ConvId| c != conv_id ==> #[trigger] t.messages[c] == s.messages[c]
            &&& msgs.len() == (if s.messages.contains_key(conv_id) {
                s.messages[conv_id].len() + 1
            } else {
                1
            })
            &&& forall|i: int|
                0 <= i < msgs.len() - 1 ==> #[trigger] msgs[i] == s.messages[conv_id][i]
            &&& msgs.last().id == id
            &&& msgs.last().sender_user_id == s.my_user_id
            &&& msgs.last().text == text
            &&& msgs.last().outgoing
            &&& msgs.last().status == DeliveryStatus::Sending
        }),
{
    let t = after_send(s, id, text);
    assert(t.messages.dom() =~= s.messages.dom().insert(conv_id));
}

/// A text that goes out is shown at once in the dialog, with a scroll, and over
/// an open channel it is handed to the server, once, under the same number and
/// for the open conversation, whatever that conversation holds; nothing else
/// is sent.
pub proof fn law_sent_text_is_handed_on(
    s: ChatStateView,
    open: bool,
    id: MessageId,
    text: Seq<char>,
    conv_id: ConvId,
)
    requires
        s.active_conv == Some(conv_id),
    ensures
        ({
            let t = after_send(s, id, text);
            let actions = send_actions(t, open, id, text);
            &&& actions.len() == (if open {
                4int
            } else {
                3
            })
            &&& shows_dialog_now(actions[0], t)
            &&& scroll_at(actions, 1)
            &&& open ==> actions[3] == ActionView::Send(
                ClientMsgView::SendMsg { message_id: id, conv_id, content: text },
            )
            &&& forall|i: int|
                0 <= i < actions.len() && i != 3 ==> !((#[trigger] actions[i]) is Send)
        }),
{
    law_dialog_is_shown(after_send(s, id, text));
}

/// Without an open conversation nothing goes out under any number.
pub proof fn law_nothing_is_sent_nowhere(s: ChatStateView, open: bool, id: MessageId, text: Seq<char>)
    requires
        s.active_conv is None,
    ensures
        after_send(s, id, text) == s,
        send_actions(s, open, id, text).len() == 0,
{
}

/// A text goes out exactly when its bytes are no more than a message may have,
/// a conversation is open and the window is there. One of too many bytes is
/// held back with a note that names the limit, and others without a word.
pub proof fn law_text_is_held_back(
    s: ChatStateView,
    max_message_len: usize,
    window_open: bool,
    text: Seq<char>,
)
    ensures
        goes_out(s, max_message_len, window_open, text) <==> encode_utf8(text).len()
            <= max_message_len && s.active_conv is Some && window_open,
        encode_utf8(text).len() <= max_message_len ==> held_back_actions(
            max_message_len,
            text,
        ).len() == 0,
        encode_utf8(text).len() > max_message_len ==> held_back_actions(max_message_len, text)
            == seq![
            ActionView::Post(
                UiUpdateView::StatusMessage(
                    "Message is too long: "@ + decimal(max_message_len as nat)
                        + " bytes maximum."@,
                ),
            ),
        ],
{
}

/// The opening of a dialog makes its peer the open one, under the login given,
/// with the conversation known for that peer, and sets the peer's unread count
/// to zero. Nothing else that the client knows changes.
pub proof fn law_dialog_is_opened(s: ChatStateView, peer: i64, login: Seq<char>)
    ensures
        ({
            let t = after_open_chat(s, peer, login);
            &&& t == (ChatStateView {
                active_peer_id: Some(peer),
                active_peer_login: login,
                active_conv: t.active_conv,
                unread: t.unread,
                ..s
            })
            &&& s.conv.contains_key(peer) ==> t.active_conv == Some(s.conv[peer])
            &&& !s.conv.contains_key(peer) ==> t.active_conv is None
            &&& t.unread.dom() == s.unread.dom().insert(peer)
            &&& t.unread[peer] == 0
            &&& forall|k: i64| k != peer ==> #[trigger] t.unread[k] == s.unread[k]
        }),
{
    let t = after_open_chat(s, peer, login);
    assert(t.unread.dom() =~= s.unread.dom().insert(peer));
}

/// What the client does when a dialog is opened: it shows the peer and the
/// dialog at once and the friends list afterwards. Between them, over an open
/// channel, it asks for the history of a known conversation and reports as
/// read, once each and in their order, the messages of it that came in and are
/// not read; of an unknown conversation it asks which it is.
pub proof fn law_opened_dialog_is_shown(s: ChatStateView, open: bool, peer: i32, login: Seq<char>)
    ensures
        ({
            let t = after_open_chat(s, peer as i64, login);
            let actions = open_chat_actions(t, open, peer, login);
            let n = actions.len();
            &&& n >= 4
            &&& actions[0] == ActionView::Show(UiUpdateView::ActivePeerId(peer))
            &&& actions[1] == ActionView::Show(UiUpdateView::ActivePeerLogin(login))
            &&& shows_dialog_now(actions[2], t)
            &&& posts_friends(actions[n - 1], t)
            &&& !open ==> n == 4
            &&& open && !s.conv.contains_key(peer as i64) ==> {
                &&& n == 5
                &&& actions[3] == ActionView::Send(
                    ClientMsgView::ResolveDm { peer_user_id: peer as i64 },
                )
            }
            &&& open && s.conv.contains_key(peer as i64) ==> {
                let conv_id = s.conv[peer as i64];
                let known = if s.messages.contains_key(conv_id) {
                    s.messages[conv_id]
                } else {
                    Seq::empty()
                };
                let unread = known.filter(
                    |m: ChatMessageView| !m.outgoing && m.status != DeliveryStatus::Read,
                );
                &&& n == 5 + unread.len()
                &&& actions[3] == ActionView::Send(ClientMsgView::HistoryReq { conv_id })
                &&& forall|i: int|
                    4 <= i < n - 1 ==> #[trigger] actions[i] == ActionView::Send(
                        ClientMsgView::MarkRead { message_id: unread[i - 4].id },
                    )
            }
        }),
{
    let t = after_open_chat(s, peer as i64, login);
    law_dialog_is_shown(t);
    law_friends_are_shown(t);
    law_unread_are_marked(t);
    if s.conv.contains_key(peer as i64) && !s.messages.contains_key(s.conv[peer as i64]) {
        reveal(Seq::filter);
        assert(Seq::<ChatMessageView>::empty().filter(
            |m: ChatMessageView| !m.outgoing && m.status != DeliveryStatus::Read,
        ).len() == 0);
    }
}

/// Messages are handed to the network over an open channel, all of them and in
/// their order, and not at all without one.
pub proof fn law_messages_are_handed_on(open: bool, msgs: Seq<ClientMsgView>)
    ensures
        !open ==> sends(open, msgs).len() == 0,
        open ==> sends(open, msgs).len() == msgs.len(),
        open ==> forall|i: int|
            0 <= i < msgs.len() ==> #[trigger] sends(open, msgs)[i] == ActionView::Send(msgs[i]),
{
}

/// What is written when the address or the login changes: those given, and of
/// the session what was stored; empty or zero stands for what was not.
pub proof fn law_stored_session_is_kept(
    stored: AppSettingsView,
    addr: Seq<char>,
    login: Seq<char>,
)
    ensures
        ({
            let r = resaved(stored, addr, login);
            &&& r.server_address == Some(addr)
            &&& r.login == Some(login)
            &&& stored.token is Some ==> r.token == stored.token
            &&& stored.token is None ==> r.token == Some(Seq::<char>::empty())
            &&& stored.user_id is Some ==> r.user_id == stored.user_id
            &&& stored.user_id is None ==> r.user_id == Some(0i64)
            &&& stored.expires_at is Some ==> r.expires_at == stored.expires_at
            &&& stored.expires_at is None ==> r.expires_at == Some(0i64)
        }),
{
}

/// A request to connect makes the client remember the address and the login,
/// write them beside the stored session and say that it connects. Where there
/// is no channel, it opens one and starts a connection with what was given.
pub proof fn law_connection_is_started(
    c: AppControllerView,
    stored: AppSettingsView,
    addr: Seq<char>,
    login: Seq<char>,
    password: Seq<char>,
    is_register: bool,
)
    ensures
        ({
            let d = after_connect(c, addr, login);
            let actions = connect_actions(
                c.sender_slot,
                stored,
                addr,
                login,
                password,
                is_register,
            );
            &&& d.sender_slot
            &&& d.state == (ChatStateView { server_addr: addr, login, ..c.state })
            &&& actions.len() == (if c.sender_slot {
                2int
            } else {
                3
            })
            &&& actions[0] matches ActionView::SaveSession(saved)
            &&& saved.server_address == Some(addr)
            &&& saved.login == Some(login)
            &&& stored.token is Some ==> saved.token == stored.token
            &&& stored.user_id is Some ==> saved.user_id == stored.user_id
            &&& stored.expires_at is Some ==> saved.expires_at == stored.expires_at
            &&& stored.token is None ==> saved.token == Some(Seq::<char>::empty())
            &&& stored.user_id is None ==> saved.user_id == Some(0i64)
            &&& stored.expires_at is None ==> saved.expires_at == Some(0i64)
            &&& actions[1] == ActionView::Show(UiUpdateView::StatusMessage("Connecting..."@))
            &&& !c.sender_slot ==> actions[2] == (ActionView::StartNetwork {
                server_addr: addr,
                login,
                password,
                is_register,
            })
        }),
{
}

/// A stored session can be resumed exactly when its address is stored, its
/// token is more than white space, and the time at which it expires is yet to
/// come.
pub proof fn law_session_can_be_resumed(stored: AppSettingsView, now: i64)
    ensures
        can_resume(stored, now) <==> stored.server_address is Some && stored.token is Some
            && !blank(stored.token->0) && stored.expires_at is Some && stored.expires_at->0 > now,
{
}

/// At its start the client shows the stored address and the stored login, those
/// that there are, in this order. Then it connects where the session can be
/// resumed, as if the user had asked for it with the stored address and login
/// and an empty password; otherwise that is all, and nothing changes.
pub proof fn law_start_shows_and_resumes(c: AppControllerView, stored: AppSettingsView, now: i64)
    ensures
        ({
            let actions = auto_login_actions(c.sender_slot, stored, now);
            let login = match stored.login {
                Some(login) => login,
                None => Seq::empty(),
            };
            let a = if stored.server_address is Some {
                1int
            } else {
                0
            };
            let n = if stored.login is Some {
                a + 1
            } else {
                a
            };
            let resumed = stored.server_address is Some && stored.token is Some && !blank(
                stored.token->0,
            ) && stored.expires_at is Some && stored.expires_at->0 > now;
            &&& stored.server_address is Some ==> actions[0] == ActionView::Show(
                UiUpdateView::ServerAddress(stored.server_address->0),
            )
            &&& stored.login is Some ==> actions[a] == ActionView::Show(
                UiUpdateView::LoginText(stored.login->0),
            )
            &&& !resumed ==> actions.len() == n && after_auto_login(c, stored, now) == c
            &&& resumed ==> {
                &&& actions.skip(n) == connect_actions(
                    c.sender_slot,
                    stored,
                    stored.server_address->0,
                    login,
                    Seq::empty(),
                    false,
                )
                &&& after_auto_login(c, stored, now) == after_connect(
                    c,
                    stored.server_address->0,
                    login,
                )
            }
        }),
{
    let actions = auto_login_actions(c.sender_slot, stored, now);
    let n = (if stored.server_address is Some {
        1int
    } else {
        0
    }) + (if stored.login is Some {
        1int
    } else {
        0
    });
    assert(crate::controller::stored_fields(stored).len() == n);
    if can_resume(stored, now) {
        assert(actions.skip(n) =~= connect_actions(
            c.sender_slot,
            stored,
            stored.server_address->0,
            crate::controller::stored_login(stored),
            Seq::empty(),
            false,
        ));
    }
}

/// When the user ends the session, the channel is dropped, the session is taken
/// out of the settings file, and the window goes back to the login screen with
/// an empty dialog. The client forgets the session and keeps the friends, the
/// requests, the address and the login.
pub proof fn law_session_is_ended(s: ChatStateView)
    ensures
        ({
            let t = s.disconnected();
            &&& t.my_user_id == 0
            &&& t.active_peer_id is None
            &&& t.active_peer_login.len() == 0
            &&& t.active_conv is None
            &&& forall|k: i64| !(#[trigger] t.conv.contains_key(k))
            &&& forall|k: ConvId| !(#[trigger] t.messages.contains_key(k))
            &&& forall|k: i64| !(#[trigger] t.unread.contains_key(k))
            &&& t.friends == s.friends && t.incoming_reqs == s.incoming_reqs
            &&& t.server_addr == s.server_addr && t.login == s.login
            &&& disconnect_actions(t) == seq![
                ActionView::CloseSender,
                ActionView::ClearSession,
                ActionView::Show(UiUpdateView::CurrentScreen(0)),
                ActionView::Show(UiUpdateView::ActivePeerId(-1i32)),
                ActionView::Show(UiUpdateView::ActivePeerLogin(Seq::empty())),
                ActionView::Show(
                    UiUpdateView::Messages { peer_id: -1i32, entries: Seq::empty() },
                ),
            ]
        }),
{
    assert(s.disconnected().active_lines() =~= Seq::empty());
}

/// A strength is shown by its number and then in words: from 0 to 4 each has
/// its own, and any other number has none.
pub proof fn law_strength_is_shown(score: i32, text: Seq<char>)
    ensures
        show_strength(score, text) == seq![
            ActionView::Show(UiUpdateView::PasswordStrength(score)),
            ActionView::Show(UiUpdateView::PasswordStrengthText(text)),
        ],
        score_text(score) == (match score {
            0 => "Too weak (needs improvement)"@,
            1 => "Weak (needs at least Fair)"@,
            2 => "Fair (minimum required)"@,
            3 => "Strong"@,
            4 => "Excellent"@,
            _ => Seq::empty(),
        }),
{
}

/// Every password of fewer than 8 bytes or of at most 12 characters can be
/// judged, and where `usize` has more than 32 bits every one of at most 20; no
/// longer one of 8 bytes or more can.
pub proof fn law_short_passwords_are_judged(password: Seq<char>)
    ensures
        encode_utf8(password).len() < 8 ==> ratable(password),
        password.len() <= 12 ==> ratable(password),
        usize::MAX > 0xffff_ffff && password.len() <= 20 ==> ratable(password),
        ratable(password) ==> encode_utf8(password).len() < 8 || password.len() <= 20,
{
}

} // verus!
