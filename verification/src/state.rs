//! What the client knows: the open dialog, the friends and the messages.

use crate::effects::{Action, FriendEntry, FriendEntryView, MessageEntry, MessageEntryView, UiUpdate};
use crate::effects::{ActionView, UiUpdateView};
use crate::numbers::{count32, low32, wrap32};
use crate::protocol::{ConvId, MessageId, UserBrief, UserBriefView};
use crate::types::{later, status_number, ChatMessage, ChatMessageView, DeliveryStatus};
use crate::views::{list_views, views};
use std::collections::HashMap;
use vstd::prelude::*;

verus! {

broadcast use {crate::views::group_views, vstd::std_specs::hash::group_hash_axioms};

pub struct ChatState {
    pub my_user_id: i64,
    /// The peer of the open dialog; `None` where none is open. The window
    /// addresses a dialog by the person, so this is what it knows it by.
    pub active_peer_id: Option<i64>,
    /// The login of that peer, by which a refused dialog names the person.
    pub active_peer_login: String,
    /// The conversation of the open dialog; `None` until the server has told
    /// which it is. A person and a conversation are different things.
    pub active_conv: Option<ConvId>,
    /// The conversation with a person, so that a dialog that was open before
    /// needs no question to the server.
    pub conv: HashMap<i64, ConvId>,
    pub server_addr: String,
    pub login: String,
    pub friends: Vec<UserBrief>,
    /// Messages by conversation, not by person.
    pub messages: HashMap<ConvId, Vec<ChatMessage>>,
    pub incoming_reqs: Vec<UserBrief>,
    /// Unread incoming messages by person. Kept here and not in the window,
    /// whose friends list is rebuilt from this state as a whole.
    pub unread: HashMap<i64, usize>,
}

#[verifier::ext_equal]
pub struct ChatStateView {
    pub my_user_id: i64,
    pub active_peer_id: Option<i64>,
    pub active_peer_login: Seq<char>,
    pub active_conv: Option<ConvId>,
    pub conv: Map<i64, ConvId>,
    pub server_addr: Seq<char>,
    pub login: Seq<char>,
    pub friends: Seq<UserBriefView>,
    pub messages: Map<ConvId, Seq<ChatMessageView>>,
    pub incoming_reqs: Seq<UserBriefView>,
    pub unread: Map<i64, usize>,
}

impl View for ChatState {
    type V = ChatStateView;

    open spec fn view(&self) -> ChatStateView {
        ChatStateView {
            my_user_id: self.my_user_id,
            active_peer_id: self.active_peer_id,
            active_peer_login: self.active_peer_login@,
            active_conv: self.active_conv,
            conv: self.conv@,
            server_addr: self.server_addr@,
            login: self.login@,
            friends: views(self.friends@),
            messages: list_views(self.messages@),
            incoming_reqs: views(self.incoming_reqs@),
            unread: self.unread@,
        }
    }
}

/// What `m` holds under `k`, if anything.
pub open spec fn lookup<K, V>(m: Map<K, V>, k: K) -> Option<V> {
    if m.contains_key(k) {
        Some(m[k])
    } else {
        None
    }
}

/// Whether `users` lists the user `id`.
pub open spec fn lists(users: Seq<UserBriefView>, id: i64) -> bool {
    exists|i: int| 0 <= i < users.len() && (#[trigger] users[i]).user_id == id
}

/// A message of the peer that the peer does not know to be read.
pub open spec fn awaits_reading(m: ChatMessageView) -> bool {
    !m.outgoing && m.status != DeliveryStatus::Read
}

/// Place `i` holds the first message `id` of `msgs`.
pub open spec fn first_at(msgs: Seq<ChatMessageView>, id: MessageId, i: int) -> bool {
    &&& 0 <= i < msgs.len()
    &&& msgs[i].id == id
    &&& forall|j: int| 0 <= j < i ==> (#[trigger] msgs[j]).id != id
}

/// `m`, at least as far delivered as `floor`.
pub open spec fn raised(m: ChatMessageView, floor: DeliveryStatus) -> ChatMessageView {
    ChatMessageView { status: later(m.status, floor), ..m }
}

/// `msgs`, with the first message `id` at least as far delivered as `floor`.
pub open spec fn raise_first(
    msgs: Seq<ChatMessageView>,
    id: MessageId,
    floor: DeliveryStatus,
) -> Seq<ChatMessageView> {
    if exists|i: int| first_at(msgs, id, i) {
        let i = choose|i: int| first_at(msgs, id, i);
        msgs.update(i, raised(msgs[i], floor))
    } else {
        msgs
    }
}

/// The line that shows a message.
pub open spec fn message_line(m: ChatMessageView) -> MessageEntryView {
    MessageEntryView { text: m.text, is_outgoing: m.outgoing, status: status_number(m.status) }
}

impl ChatStateView {
    /// The state before any user is known.
    pub open spec fn initial() -> ChatStateView {
        ChatStateView {
            my_user_id: 0,
            active_peer_id: None,
            active_peer_login: Seq::empty(),
            active_conv: None,
            conv: Map::empty(),
            server_addr: Seq::empty(),
            login: Seq::empty(),
            friends: Seq::empty(),
            messages: Map::empty(),
            incoming_reqs: Seq::empty(),
            unread: Map::empty(),
        }
    }

    /// The conversation of the open dialog is the one known for its peer.
    pub open spec fn wf(self) -> bool {
        self.active_conv == (match self.active_peer_id {
            Some(peer) => lookup(self.conv, peer),
            None => None,
        })
    }

    /// Unread messages of a person.
    pub open spec fn unread_of(self, user_id: i64) -> usize {
        if self.unread.contains_key(user_id) {
            self.unread[user_id]
        } else {
            0
        }
    }

    /// The messages known of a conversation.
    pub open spec fn messages_of(self, conv_id: ConvId) -> Seq<ChatMessageView> {
        if self.messages.contains_key(conv_id) {
            self.messages[conv_id]
        } else {
            Seq::empty()
        }
    }

    /// The messages of the open dialog.
    pub open spec fn active_messages(self) -> Seq<ChatMessageView> {
        match self.active_conv {
            Some(conv_id) => self.messages_of(conv_id),
            None => Seq::empty(),
        }
    }

    /// The line that shows a friend.
    pub open spec fn friend_line(self, f: UserBriefView) -> FriendEntryView {
        FriendEntryView {
            login: f.login,
            user_id: wrap32(f.user_id as int),
            unread: wrap32(self.unread_of(f.user_id) as int),
        }
    }

    /// The friends list.
    pub open spec fn friend_lines(self) -> Seq<FriendEntryView> {
        self.friends.map_values(|f: UserBriefView| self.friend_line(f))
    }

    /// The lines of the open dialog.
    pub open spec fn active_lines(self) -> Seq<MessageEntryView> {
        self.active_messages().map_values(|m: ChatMessageView| message_line(m))
    }

    /// The messages of the open dialog that its peer is still to be told the
    /// reading of.
    pub open spec fn unread_ids(self) -> Seq<MessageId> {
        self.active_messages().filter(|m: ChatMessageView| awaits_reading(m)).map_values(
            |m: ChatMessageView| m.id,
        )
    }

    /// The number by which the window knows the open dialog.
    pub open spec fn shown_peer(self) -> i32 {
        match self.active_peer_id {
            Some(peer) => wrap32(peer as int),
            None => -1i32,
        }
    }

    /// The window's friends list, rebuilt.
    pub open spec fn friends_update(self) -> UiUpdateView {
        UiUpdateView::FriendsList(self.friend_lines())
    }

    /// The window's dialog, rebuilt.
    pub open spec fn messages_update(self) -> UiUpdateView {
        UiUpdateView::Messages { peer_id: self.shown_peer(), entries: self.active_lines() }
    }

    /// The state without the conversation of the open dialog.
    pub open spec fn without_active_conv(self) -> ChatStateView {
        ChatStateView {
            active_conv: None,
            messages: match self.active_conv {
                Some(conv_id) => self.messages.remove(conv_id),
                None => self.messages,
            },
            conv: match self.active_peer_id {
                Some(peer) => self.conv.remove(peer),
                None => self.conv,
            },
            ..self
        }
    }

    /// The state after a connection has ended.
    pub open spec fn disconnected(self) -> ChatStateView {
        ChatStateView {
            my_user_id: 0,
            active_peer_id: None,
            active_peer_login: Seq::empty(),
            active_conv: None,
            conv: Map::empty(),
            messages: Map::empty(),
            unread: Map::empty(),
            ..self
        }
    }

    /// The state with one more message at the end of a conversation.
    pub open spec fn with_message(self, conv_id: ConvId, m: ChatMessageView) -> ChatStateView {
        ChatStateView {
            messages: self.messages.insert(conv_id, self.messages_of(conv_id).push(m)),
            ..self
        }
    }

    /// The state with a message at least as far delivered as `floor`.
    pub open spec fn with_raised(
        self,
        conv_id: ConvId,
        id: MessageId,
        floor: DeliveryStatus,
    ) -> ChatStateView {
        if self.messages.contains_key(conv_id) {
            ChatStateView {
                messages: self.messages.insert(
                    conv_id,
                    raise_first(self.messages[conv_id], id, floor),
                ),
                ..self
            }
        } else {
            self
        }
    }
}

impl ChatState {
    /// The state before any user is known.
    pub fn new() -> (r: ChatState)
        ensures
            r@ == ChatStateView::initial(),
            r@.wf(),
    {
        let r = ChatState {
            my_user_id: 0,
            active_peer_id: None,
            active_peer_login: String::new(),
            active_conv: None,
            conv: HashMap::new(),
            server_addr: String::new(),
            login: String::new(),
            friends: Vec::new(),
            messages: HashMap::new(),
            incoming_reqs: Vec::new(),
            unread: HashMap::new(),
        };
        assert(r@ =~= ChatStateView::initial());
        r
    }

    /// Forgets what belongs to a connection: who the user is, the open
    /// dialog, conversations, messages and unread counts.
    pub fn disconnect(&mut self)
        ensures
            final(self)@ == old(self)@.disconnected(),
            final(self)@.wf(),
    {
        self.active_peer_id = None;
        self.active_peer_login = String::new();
        self.active_conv = None;
        self.conv.clear();
        self.my_user_id = 0;
        self.messages.clear();
        self.unread.clear();
        assert(self@ =~= old(self)@.disconnected());
    }

    /// Adds a message at the end of a conversation.
    pub fn add_message(&mut self, conv_id: ConvId, message: ChatMessage)
        ensures
            final(self)@ == old(self)@.with_message(conv_id, message@),
    {
        let ghost before = self@;
        let ghost m = message@;
        let mut msgs: Vec<ChatMessage> = match self.messages.remove(&conv_id) {
            Some(msgs) => msgs,
            None => Vec::new(),
        };
        assert(views(msgs@) =~= before.messages_of(conv_id));
        msgs.push(message);
        self.messages.insert(conv_id, msgs);
        assert(self@ =~= before.with_message(conv_id, m));
    }

    /// Raises the delivery state of the first message `id` of a conversation
    /// to `floor`, unless it is that far already.
    pub fn raise_status(&mut self, conv_id: ConvId, id: MessageId, floor: DeliveryStatus)
        ensures
            final(self)@ == old(self)@.with_raised(conv_id, id, floor),
    {
        let ghost before = self@;
        match self.messages.remove(&conv_id) {
            Some(mut msgs) => {
                raise_in(&mut msgs, id, floor);
                self.messages.insert(conv_id, msgs);
                assert(self@ =~= before.with_raised(conv_id, id, floor));
            },
            None => {
                assert(self@ =~= before);
            },
        }
    }
}

fn raise_in(msgs: &mut Vec<ChatMessage>, id: MessageId, floor: DeliveryStatus)
    ensures
        views(final(msgs)@) == raise_first(views(old(msgs)@), id, floor),
{
    let ghost before = views(msgs@);
    let mut i: usize = 0;
    while i < msgs.len()
        invariant
            i <= msgs.len(),
            views(msgs@) == before,
            before == views(old(msgs)@),
            forall|j: int| 0 <= j < i ==> (#[trigger] before[j]).id != id,
        decreases msgs.len() - i,
    {
        assert(before[i as int] == msgs@[i as int]@);
        if msgs[i].id == id {
            assert(first_at(before, id, i as int));
            assert forall|k: int| first_at(before, id, k) implies k == i by {
                if k < i {
                    assert(before[k].id != id);
                } else if k > i {
                    assert(before[i as int].id != id);
                }
            }
            if msgs[i].status.number() < floor.number() {
                msgs[i].status = floor;
            }
            assert(views(msgs@) =~= raise_first(before, id, floor));
            return;
        }
        i += 1;
    }
    assert forall|k: int| !first_at(before, id, k) by {
        if 0 <= k < before.len() {
            assert(before[k].id != id);
        }
    }
}

/// Whether `users` lists the user `id`.
pub fn is_listed(users: &Vec<UserBrief>, id: i64) -> (r: bool)
    ensures
        r == lists(views(users@), id),
{
    let mut i: usize = 0;
    while i < users.len()
        invariant
            i <= users.len(),
            forall|j: int| 0 <= j < i ==> (#[trigger] views(users@)[j]).user_id != id,
        decreases users.len() - i,
    {
        assert(views(users@)[i as int] == users@[i as int]@);
        if users[i].user_id == id {
            return true;
        }
        i += 1;
    }
    false
}

/// `users` without the user `id`.
pub open spec fn others(users: Seq<UserBriefView>, id: i64) -> Seq<UserBriefView> {
    users.filter(|u: UserBriefView| u.user_id != id)
}

/// Takes the user `id` off the list, wherever it stands.
pub fn remove_user(users: &mut Vec<UserBrief>, id: i64)
    ensures
        views(final(users)@) == others(views(old(users)@), id),
{
    let ghost all = views(users@);
    let ghost keep = |u: UserBriefView| u.user_id != id;
    let ghost mut seen: int = 0;
    let mut i: usize = 0;
    assert(all.take(0).filter(keep) =~= Seq::empty()) by {
        reveal(Seq::filter);
    }
    assert(views(users@) =~= all.take(0).filter(keep) + all.skip(0));
    while i < users.len()
        invariant
            0 <= seen <= all.len(),
            all == views(old(users)@),
            keep == (|u: UserBriefView| u.user_id != id),
            i == all.take(seen).filter(keep).len(),
            views(users@) == all.take(seen).filter(keep) + all.skip(seen),
        decreases all.len() - seen,
    {
        let ghost kept = all.take(seen).filter(keep);
        assert(views(users@).len() == users.len());
        assert(views(users@)[i as int] == all[seen]);
        proof {
            lemma_filter_step(all, keep, seen);
        }
        if users[i].user_id == id {
            users.remove(i);
            assert(views(users@) =~= kept + all.skip(seen + 1));
        } else {
            assert(views(users@) =~= kept.push(all[seen]) + all.skip(seen + 1));
            i += 1;
        }
        proof {
            seen = seen + 1;
        }
    }
    assert(views(users@).len() == users.len());
    assert(seen == all.len());
    assert(all.take(seen) =~= all);
    assert(views(users@) =~= all.filter(keep));
}

proof fn lemma_filter_step<A>(s: Seq<A>, keep: spec_fn(A) -> bool, i: int)
    requires
        0 <= i < s.len(),
    ensures
        s.take(i + 1).filter(keep) == (if keep(s[i]) {
            s.take(i).filter(keep).push(s[i])
        } else {
            s.take(i).filter(keep)
        }),
{
    reveal(Seq::filter);
    let t = s.take(i + 1);
    assert(t.drop_last() =~= s.take(i));
    assert(t.last() == s[i]);
}

/// The friends list, built from the state as a whole.
pub fn build_model_friends(state: &ChatState) -> (r: Vec<FriendEntry>)
    ensures
        views(r@) == state@.friend_lines(),
{
    let mut lines: Vec<FriendEntry> = Vec::new();
    let mut i: usize = 0;
    while i < state.friends.len()
        invariant
            i <= state.friends.len(),
            lines.len() == i,
            forall|j: int|
                0 <= j < i ==> #[trigger] views(lines@)[j] == state@.friend_line(
                    state@.friends[j],
                ),
        decreases state.friends.len() - i,
    {
        let ghost before = lines@;
        let f = &state.friends[i];
        assert(state@.friends[i as int] == f@);
        let count: usize = match state.unread.get(&f.user_id) {
            Some(n) => *n,
            None => 0,
        };
        lines.push(
            FriendEntry {
                login: f.login.clone(),
                user_id: low32(f.user_id),
                unread: count32(count),
            },
        );
        assert forall|j: int| 0 <= j < i + 1 implies #[trigger] views(lines@)[j]
            == state@.friend_line(state@.friends[j]) by {
            if j < i {
                assert(views(before)[j] == state@.friend_line(state@.friends[j]));
                assert(lines@[j] == before[j]);
            }
        }
        i += 1;
    }
    assert(views(lines@) =~= state@.friend_lines());
    lines
}

/// The lines of a conversation.
pub fn build_model_msgs(state: &ChatState, conv_id: ConvId) -> (r: Vec<MessageEntry>)
    ensures
        views(r@) == state@.messages_of(conv_id).map_values(
            |m: ChatMessageView| message_line(m),
        ),
{
    let mut lines: Vec<MessageEntry> = Vec::new();
    let ghost all = state@.messages_of(conv_id);
    if let Some(msgs) = state.messages.get(&conv_id) {
        assert(all == views(msgs@));
        let mut i: usize = 0;
        while i < msgs.len()
            invariant
                i <= msgs.len(),
                all == views(msgs@),
                lines.len() == i,
                forall|j: int|
                    0 <= j < i ==> #[trigger] views(lines@)[j] == message_line(all[j]),
            decreases msgs.len() - i,
        {
            let ghost before = lines@;
            let m = &msgs[i];
            assert(all[i as int] == m@);
            lines.push(
                MessageEntry {
                    text: m.text.clone(),
                    is_outgoing: m.outgoing,
                    status: m.status.number(),
                },
            );
            assert forall|j: int| 0 <= j < i + 1 implies #[trigger] views(lines@)[j]
                == message_line(all[j]) by {
                if j < i {
                    assert(views(before)[j] == message_line(all[j]));
                    assert(lines@[j] == before[j]);
                }
            }
            i += 1;
        }
    }
    assert(views(lines@) =~= all.map_values(|m: ChatMessageView| message_line(m)));
    lines
}

/// The lines of the open dialog; none where no dialog is open or its
/// conversation is not known yet.
pub fn build_model_active(state: &ChatState) -> (r: Vec<MessageEntry>)
    ensures
        views(r@) == state@.active_lines(),
{
    match state.active_conv {
        Some(conv_id) => build_model_msgs(state, conv_id),
        None => {
            let r: Vec<MessageEntry> = Vec::new();
            assert(views(r@) =~= state@.active_lines());
            r
        },
    }
}

/// Throws the conversation of the open dialog away: it is no longer valid.
/// The dialog itself stays open.
pub fn forget_conversation(state: &mut ChatState)
    ensures
        final(state)@ == old(state)@.without_active_conv(),
        old(state)@.wf() ==> final(state)@.wf(),
{
    let ghost before = state@;
    if let Some(conv_id) = state.active_conv {
        state.messages.remove(&conv_id);
    }
    state.active_conv = None;
    if let Some(peer) = state.active_peer_id {
        state.conv.remove(&peer);
    }
    assert(state@ =~= before.without_active_conv());
}

/// The messages of the open dialog that came from the peer and are not marked
/// as read, in their order.
pub fn unread_message_ids(state: &ChatState) -> (r: Vec<MessageId>)
    ensures
        r@ == state@.unread_ids(),
{
    let mut ids: Vec<MessageId> = Vec::new();
    let ghost all = state@.active_messages();
    let ghost keep = |m: ChatMessageView| awaits_reading(m);
    let ghost id_of = |m: ChatMessageView| m.id;
    assert(all.take(0).filter(keep).map_values(id_of) =~= Seq::empty()) by {
        reveal(Seq::filter);
    }
    if let Some(conv_id) = state.active_conv {
        if let Some(msgs) = state.messages.get(&conv_id) {
            assert(all == views(msgs@));
            let mut i: usize = 0;
            while i < msgs.len()
                invariant
                    i <= msgs.len(),
                    all == views(msgs@),
                    keep == (|m: ChatMessageView| awaits_reading(m)),
                    id_of == (|m: ChatMessageView| m.id),
                    ids@ == all.take(i as int).filter(keep).map_values(id_of),
                decreases msgs.len() - i,
            {
                let m = &msgs[i];
                assert(all[i as int] == m@);
                proof {
                    lemma_filter_step(all, keep, i as int);
                }
                if !m.outgoing && m.status.number() < DeliveryStatus::Read.number() {
                    ids.push(m.id);
                    assert(ids@ =~= all.take(i + 1).filter(keep).map_values(id_of));
                }
                i += 1;
            }
        }
    }
    assert(all.take(all.len() as int) =~= all);
    ids
}

/// The rebuilding of the window's friends list.
pub fn sync_friends(state: &ChatState) -> (r: Action)
    ensures
        r@ == ActionView::Post(state@.friends_update()),
{
    Action::Post(UiUpdate::FriendsList(build_model_friends(state)))
}

fn messages_update(state: &ChatState) -> (r: UiUpdate)
    ensures
        r@ == state@.messages_update(),
{
    let peer_id: i32 = match state.active_peer_id {
        Some(peer) => low32(peer),
        None => -1,
    };
    UiUpdate::Messages { peer_id, entries: build_model_active(state) }
}

/// The rebuilding of the window's dialog, for events of the network task: the
/// window changes when its event loop comes to it.
pub fn sync_messages(state: &ChatState) -> (r: Action)
    ensures
        r@ == ActionView::Post(state@.messages_update()),
{
    Action::Post(messages_update(state))
}

/// The rebuilding of the window's dialog, for events of the window itself,
/// which need it up to date at once: otherwise a request to scroll would
/// scroll a list in which the new message is still missing.
pub fn sync_messages_now(state: &ChatState) -> (r: Action)
    ensures
        r@ == ActionView::Show(state@.messages_update()),
{
    Action::Show(messages_update(state))
}

/// Makes `entries`, the lines of the dialog with `peer_id`, all that the
/// window's dialog shows; a window that shows another dialog keeps its lines.
/// Says whether they were written.
pub fn write_messages(
    window_peer: i32,
    window_lines: &mut Vec<MessageEntry>,
    peer_id: i32,
    entries: Vec<MessageEntry>,
) -> (written: bool)
    ensures
        written == (window_peer == peer_id),
        *final(window_lines) == (if window_peer == peer_id {
            entries
        } else {
            *old(window_lines)
        }),
{
    if window_peer != peer_id {
        return false;
    }
    *window_lines = entries;
    true
}

/// How long a request to scroll stands, in milliseconds.
pub const SCROLL_MILLIS: u64 = 300;

/// The actions of a request to scroll.
pub open spec fn scroll_actions() -> Seq<ActionView> {
    seq![
        ActionView::Post(UiUpdateView::ScrollPending(true)),
        ActionView::PostAfter {
            millis: SCROLL_MILLIS,
            update: UiUpdateView::ScrollPending(false),
        },
    ]
}

/// Asks the window to scroll to the end of the dialog, and takes the request
/// back after [`SCROLL_MILLIS`].
pub fn request_scroll(actions: &mut Vec<Action>)
    ensures
        views(final(actions)@) == views(old(actions)@) + scroll_actions(),
{
    let ghost before = views(actions@);
    actions.push(Action::Post(UiUpdate::ScrollPending(true)));
    actions.push(
        Action::PostAfter { millis: SCROLL_MILLIS, update: UiUpdate::ScrollPending(false) },
    );
    assert(views(actions@) =~= before + scroll_actions());
}

} // verus!
