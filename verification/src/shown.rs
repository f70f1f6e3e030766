//! What the window is to show of a state, said line by line.

use crate::effects::{MessageEntryView, UiUpdateView};
use crate::numbers::law_low_bits_are_kept;
use crate::state::ChatStateView;
use crate::types::{ChatMessageView, DeliveryStatus};
use vstd::prelude::*;

verus! {

/// `shown` stands for `n` on the screen: it is `n` where 32 bits hold `n`, and
/// has the low 32 bits of `n` in any case.
pub open spec fn stands_for(shown: i32, n: int) -> bool {
    &&& i32::MIN <= n <= i32::MAX ==> shown == n
    &&& (shown - n) % 0x1_0000_0000 == 0
}

/// Every message has its line, in their order: with its text, its direction
/// and the number of its delivery state.
pub open spec fn show_messages(
    lines: Seq<MessageEntryView>,
    msgs: Seq<ChatMessageView>,
) -> bool {
    &&& lines.len() == msgs.len()
    &&& forall|i: int|
        0 <= i < msgs.len() ==> {
            &&& (#[trigger] lines[i]).text == msgs[i].text
            &&& lines[i].is_outgoing == msgs[i].outgoing
            &&& lines[i].status == match msgs[i].status {
                DeliveryStatus::Sending => 0int,
                DeliveryStatus::Sent => 1,
                DeliveryStatus::Read => 2,
            }
        }
}

/// The update makes the window show the open dialog of `s`, under the number
/// of its peer, with all messages that `s` holds of its conversation.
pub open spec fn shows_dialog(update: UiUpdateView, s: ChatStateView) -> bool {
    match update {
        UiUpdateView::Messages { peer_id, entries } => {
            &&& match s.active_peer_id {
                Some(peer) => stands_for(peer_id, peer as int),
                None => peer_id == -1,
            }
            &&& match s.active_conv {
                Some(c) => if s.messages.contains_key(c) {
                    show_messages(entries, s.messages[c])
                } else {
                    entries.len() == 0
                },
                None => entries.len() == 0,
            }
        },
        _ => false,
    }
}

/// The update makes the window show the friends of `s`, one line for each and
/// in their order: with the login, the number of the user and how many messages
/// of that user are unread.
pub open spec fn shows_friends(update: UiUpdateView, s: ChatStateView) -> bool {
    match update {
        UiUpdateView::FriendsList(lines) => {
            &&& lines.len() == s.friends.len()
            &&& forall|i: int|
                0 <= i < s.friends.len() ==> {
                    &&& (#[trigger] lines[i]).login == s.friends[i].login
                    &&& stands_for(lines[i].user_id, s.friends[i].user_id as int)
                    &&& s.unread.contains_key(s.friends[i].user_id) ==> stands_for(
                        lines[i].unread,
                        s.unread[s.friends[i].user_id] as int,
                    )
                    &&& !s.unread.contains_key(s.friends[i].user_id) ==> lines[i].unread == 0
                }
        },
        _ => false,
    }
}

/// The dialog that the client makes of a state is that state's open dialog,
/// line by line.
pub proof fn law_dialog_is_shown(s: ChatStateView)
    ensures
        shows_dialog(s.messages_update(), s),
{
    if let Some(peer) = s.active_peer_id {
        law_low_bits_are_kept(peer as int);
    }
}

/// The friends list that the client makes of a state has the friends of that
/// state and their unread counts, line by line.
pub proof fn law_friends_are_shown(s: ChatStateView)
    ensures
        shows_friends(s.friends_update(), s),
{
    law_low_bits_are_kept(0);
    assert forall|i: int| 0 <= i < s.friends.len() implies {
        let line = #[trigger] s.friend_lines()[i];
        &&& line.login == s.friends[i].login
        &&& stands_for(line.user_id, s.friends[i].user_id as int)
        &&& s.unread.contains_key(s.friends[i].user_id) ==> stands_for(
            line.unread,
            s.unread[s.friends[i].user_id] as int,
        )
        &&& !s.unread.contains_key(s.friends[i].user_id) ==> line.unread == 0
    } by {
        law_low_bits_are_kept(s.friends[i].user_id as int);
        law_low_bits_are_kept(s.unread_of(s.friends[i].user_id) as int);
    }
}

} // verus!
