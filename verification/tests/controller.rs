use zeevum_client::controller::{can_rate, show_score, AppController};
use zeevum_client::effects::{Action, FriendEntry, MessageEntry, UiUpdate};
use zeevum_client::protocol::{ClientMsg, ErrorCode, ServerMsg, UserBrief};
use zeevum_client::settings::{clear_session, save_session, AppSettings};
use zeevum_client::state::{write_messages, ChatState};
use zeevum_client::types::{DeliveryStatus, HistoryEntry, UiEvent};

fn text(s: &str) -> String {
    s.to_string()
}

fn user(user_id: i64, login: &str) -> UserBrief {
    UserBrief { user_id, login: text(login) }
}

fn same(actual: &Vec<Action>, expected: Vec<Action>) {
    assert_eq!(format!("{:?}", actual), format!("{:?}", expected));
}

fn server(c: &mut AppController, msg: ServerMsg) -> Vec<Action> {
    let event = UiEvent::Server(msg);
    assert!(c.can_handle(&event));
    c.handle_ui_event(event)
}

fn messages(peer_id: i32, entries: Vec<(&str, bool, i32)>) -> UiUpdate {
    UiUpdate::Messages {
        peer_id,
        entries: entries
            .into_iter()
            .map(|(t, is_outgoing, status)| MessageEntry { text: text(t), is_outgoing, status })
            .collect(),
    }
}

fn friends(entries: Vec<(&str, i32, i32)>) -> UiUpdate {
    UiUpdate::FriendsList(
        entries
            .into_iter()
            .map(|(login, user_id, unread)| FriendEntry { login: text(login), user_id, unread })
            .collect(),
    )
}

fn scroll() -> Vec<Action> {
    vec![
        Action::Post(UiUpdate::ScrollPending(true)),
        Action::PostAfter { millis: 300, update: UiUpdate::ScrollPending(false) },
    ]
}

fn result(s: &str) -> Action {
    Action::Post(UiUpdate::SearchResult(text(s)))
}

fn status(s: &str) -> Action {
    Action::Post(UiUpdate::StatusMessage(text(s)))
}

/// A client of user 1 with an open channel, the friends bob (2) and cy (3),
/// and the dialog with bob open, whose conversation is 50.
fn in_dialog() -> AppController {
    let mut c = AppController::new();
    c.sender_slot = true;
    c.state.my_user_id = 1;
    server(&mut c, ServerMsg::FriendList { entries: vec![user(2, "bob"), user(3, "cy")] });
    c.handle_open_chat(2, "bob");
    server(&mut c, ServerMsg::DmResolved { conv_id: 50, peer: user(2, "bob") });
    c
}

fn recv(id: u128, conv_id: u128, sender: i64, content: &str) -> ServerMsg {
    ServerMsg::RecvMsg {
        message_id: id,
        conv_id,
        sender_user_id: sender,
        timestamp: 0,
        content: text(content),
    }
}

fn follows_peer(s: &ChatState) -> bool {
    s.active_conv == s.active_peer_id.and_then(|p| s.conv.get(&p).copied())
}

#[test]
fn new_client_is_empty() {
    let c = AppController::new();
    assert!(!c.sender_slot);
    assert_eq!(c.state.my_user_id, 0);
    assert!(c.state.active_peer_id.is_none() && c.state.active_conv.is_none());
    assert!(c.state.friends.is_empty() && c.state.incoming_reqs.is_empty());
    assert!(c.state.messages.is_empty() && c.state.conv.is_empty() && c.state.unread.is_empty());
    assert_eq!(c.state.server_addr, "");
    assert_eq!(c.state.login, "");
}

#[test]
fn connecting_keeps_the_stored_session() {
    let mut c = AppController::new();
    let stored = save_session("old:1", "old", "tok", 7, 99);
    let actions = c.handle_connect(&stored, "new:2", "ann", "pw", true);
    same(
        &actions,
        vec![
            Action::SaveSession(save_session("new:2", "ann", "tok", 7, 99)),
            Action::Show(UiUpdate::StatusMessage(text("Connecting..."))),
            Action::StartNetwork {
                server_addr: text("new:2"),
                login: text("ann"),
                password: text("pw"),
                is_register: true,
            },
        ],
    );
    assert!(c.sender_slot);
    assert_eq!(c.state.server_addr, "new:2");
    assert_eq!(c.state.login, "ann");
}

#[test]
fn second_connection_starts_no_task() {
    let mut c = AppController::new();
    c.handle_connect(&AppSettings::default(), "a:1", "ann", "pw", false);
    let actions = c.handle_connect(&AppSettings::default(), "b:2", "ann", "pw", false);
    same(
        &actions,
        vec![
            Action::SaveSession(save_session("b:2", "ann", "", 0, 0)),
            Action::Show(UiUpdate::StatusMessage(text("Connecting..."))),
        ],
    );
    c.handle_network_end();
    assert!(!c.sender_slot);
}

#[test]
fn good_session_is_resumed() {
    let mut c = AppController::new();
    let stored = save_session("h:1", "ann", "tok", 7, 100);
    let actions = c.auto_login_at(&stored, 99);
    same(
        &actions,
        vec![
            Action::Show(UiUpdate::ServerAddress(text("h:1"))),
            Action::Show(UiUpdate::LoginText(text("ann"))),
            Action::SaveSession(save_session("h:1", "ann", "tok", 7, 100)),
            Action::Show(UiUpdate::StatusMessage(text("Connecting..."))),
            Action::StartNetwork {
                server_addr: text("h:1"),
                login: text("ann"),
                password: text(""),
                is_register: false,
            },
        ],
    );
}

#[test]
fn ended_session_is_not_resumed() {
    let shown = vec![
        Action::Show(UiUpdate::ServerAddress(text("h:1"))),
        Action::Show(UiUpdate::LoginText(text("ann"))),
    ];
    for stored in [
        save_session("h:1", "ann", "tok", 7, 99),
        save_session("h:1", "ann", " \t", 7, 200),
        clear_session(save_session("h:1", "ann", "tok", 7, 200)),
    ] {
        let mut c = AppController::new();
        same(&c.auto_login_at(&stored, 99), shown.clone());
        assert!(!c.sender_slot);
    }
    let mut c = AppController::new();
    let stored = AppSettings { token: Some(text("tok")), expires_at: Some(200), ..AppSettings::default() };
    same(&c.auto_login_at(&stored, 99), vec![]);
}

#[test]
fn clock_decides_on_a_session() {
    let mut c = AppController::new();
    c.try_auto_login(&save_session("h:1", "ann", "tok", 7, i64::MAX));
    assert!(c.sender_slot);
    let mut c = AppController::new();
    c.try_auto_login(&save_session("h:1", "ann", "tok", 7, 1_600_000_000));
    assert!(!c.sender_slot);
}

fn strength(n: i32, words: &str) -> Vec<Action> {
    vec![
        Action::Show(UiUpdate::PasswordStrength(n)),
        Action::Show(UiUpdate::PasswordStrengthText(text(words))),
    ]
}

#[test]
fn passwords_are_judged() {
    let c = AppController::new();
    same(&c.handle_check_password_strength(""), strength(0, "Too short (min 8 chars)"));
    same(&c.handle_check_password_strength("1234567"), strength(0, "Too short (min 8 chars)"));
    same(
        &c.handle_check_password_strength("password"),
        strength(0, "Too weak (needs improvement)"),
    );
    same(
        &c.handle_check_password_strength("mV7#qLz!92xW_fRt"),
        strength(4, "Excellent"),
    );
    let four_letters = c.handle_check_password_strength("жъэы");
    assert!(!format!("{:?}", four_letters).contains("Too short"));
}

fn shown_strength(actions: &Vec<Action>) -> i32 {
    match &actions[0] {
        Action::Show(UiUpdate::PasswordStrength(n)) => *n,
        other => panic!("{:?}", other),
    }
}

#[test]
fn few_characters_cannot_be_strong() {
    let c = AppController::new();
    for (password, limit) in [
        ("漢字符", 0),
        ("жъэы", 1),
        ("ъыжэюя", 1),
        ("vK#9qZ!m", 2),
        ("vK#9qZ!m2W", 3),
        ("vK#9qZ!m2W_r", 4),
    ] {
        assert!(can_rate(password));
        let strength = shown_strength(&c.handle_check_password_strength(password));
        assert!(0 <= strength && strength <= limit);
    }
    same(
        &c.handle_check_password_strength("漢字符"),
        strength(0, "Too weak (needs improvement)"),
    );
}

#[test]
fn long_passwords_are_not_rated() {
    let limit = if usize::BITS > 32 { 20 } else { 12 };
    let longest: String = "qw".repeat(10).chars().take(limit).collect();
    assert!(can_rate(&longest));
    assert!(can_rate(&"ж".repeat(limit)));
    assert!(!can_rate(&format!("{}q", longest)));
    assert!(!can_rate(&"qw".repeat(17)));
    assert!(can_rate(""));
    let c = AppController::new();
    assert!(shown_strength(&c.handle_check_password_strength(&longest)) <= 4);
    for walk in ["45454545454545454545", "QwQwQwQwQwQwQwQwQwQw", "P@$$w0rDp4SsW0rd!!11"] {
        let walk: String = walk.chars().take(limit).collect();
        assert!(shown_strength(&c.handle_check_password_strength(&walk)) <= 4);
    }
}

#[test]
fn scores_in_words() {
    same(&show_score(0), strength(0, "Too weak (needs improvement)"));
    same(&show_score(1), strength(1, "Weak (needs at least Fair)"));
    same(&show_score(2), strength(2, "Fair (minimum required)"));
    same(&show_score(3), strength(3, "Strong"));
    same(&show_score(4), strength(4, "Excellent"));
    same(&show_score(5), strength(5, ""));
}

#[test]
fn opening_an_unknown_dialog_asks_the_server() {
    let mut c = AppController::new();
    c.sender_slot = true;
    c.state.friends.push(user(2, "bob"));
    c.state.unread.insert(2, 4);
    c.state.unread.insert(3, 5);
    let actions = c.handle_open_chat(2, "bob");
    same(
        &actions,
        vec![
            Action::Show(UiUpdate::ActivePeerId(2)),
            Action::Show(UiUpdate::ActivePeerLogin(text("bob"))),
            Action::Show(messages(2, vec![])),
            Action::Send(ClientMsg::ResolveDm { peer_user_id: 2 }),
            Action::Post(friends(vec![("bob", 2, 0)])),
        ],
    );
    assert_eq!(c.state.unread.get(&2), Some(&0));
    assert_eq!(c.state.unread.get(&3), Some(&5));
    assert!(follows_peer(&c.state));
}

#[test]
fn named_conversation_is_remembered() {
    let mut c = in_dialog();
    server(&mut c, recv(11, 50, 2, "hi"));
    c.handle_open_chat(3, "cy");
    let actions = c.handle_open_chat(2, "bob");
    same(
        &actions,
        vec![
            Action::Show(UiUpdate::ActivePeerId(2)),
            Action::Show(UiUpdate::ActivePeerLogin(text("bob"))),
            Action::Show(messages(2, vec![("hi", false, 0)])),
            Action::Send(ClientMsg::HistoryReq { conv_id: 50 }),
            Action::Send(ClientMsg::MarkRead { message_id: 11 }),
            Action::Post(friends(vec![("bob", 2, 0), ("cy", 3, 0)])),
        ],
    );
    assert!(follows_peer(&c.state));
}

#[test]
fn naming_of_the_open_dialog_asks_for_its_history() {
    let mut c = AppController::new();
    c.sender_slot = true;
    c.handle_open_chat(2, "bob");
    let actions = server(&mut c, ServerMsg::DmResolved { conv_id: 50, peer: user(2, "bob") });
    same(
        &actions,
        vec![
            Action::Post(messages(2, vec![])),
            Action::Send(ClientMsg::HistoryReq { conv_id: 50 }),
        ],
    );
    let actions = server(&mut c, ServerMsg::DmResolved { conv_id: 60, peer: user(3, "cy") });
    same(&actions, vec![]);
    assert_eq!(c.state.active_conv, Some(50));
    assert_eq!(c.state.conv.get(&3), Some(&60));
}

#[test]
fn sent_text_is_shown_and_handed_on() {
    let mut c = in_dialog();
    let actions = c.send_msg_as(77, "hello");
    let mut expected = vec![Action::Show(messages(2, vec![("hello", true, 0)]))];
    expected.extend(scroll());
    expected.push(Action::Send(ClientMsg::SendMsg {
        message_id: 77,
        conv_id: 50,
        content: text("hello"),
    }));
    same(&actions, expected);
    let m = &c.state.messages[&50][0];
    assert_eq!((m.id, m.sender_user_id, m.outgoing), (77, 1, true));
    assert_eq!(m.status, DeliveryStatus::Sending);
}

#[test]
fn sent_texts_get_identifiers_of_their_own() {
    let mut c = in_dialog();
    c.handle_send_msg(100, true, "a");
    let actions = c.handle_send_msg(100, true, "b");
    let ids: Vec<u128> = c.state.messages[&50].iter().map(|m| m.id).collect();
    assert_eq!(ids.len(), 2);
    assert_ne!(ids[0], ids[1]);
    for id in &ids {
        assert_eq!((id >> 76) & 0xf, 4);
        assert_eq!((id >> 62) & 0x3, 2);
    }
    assert!(matches!(
        &actions[3],
        Action::Send(ClientMsg::SendMsg { message_id, conv_id: 50, content })
            if *message_id == ids[1] && content == "b"
    ));
}

#[test]
fn long_texts_are_refused_by_their_bytes() {
    let mut c = in_dialog();
    let actions = c.handle_send_msg(5, true, "жжж");
    same(&actions, vec![status("Message is too long: 5 bytes maximum.")]);
    assert!(c.state.messages.get(&50).is_none());
    assert_eq!(c.handle_send_msg(6, true, "жжж").len(), 4);
}

#[test]
fn texts_need_a_conversation_and_a_window() {
    let mut c = AppController::new();
    same(&c.handle_send_msg(100, true, "a"), vec![]);
    let mut c = in_dialog();
    same(&c.handle_send_msg(100, false, "a"), vec![]);
    assert!(c.state.messages.get(&50).is_none());
}

#[test]
fn nothing_is_sent_without_a_channel() {
    let mut c = in_dialog();
    c.sender_slot = false;
    let mut all: Vec<Action> = Vec::new();
    all.extend(c.handle_search_user("bob"));
    all.extend(c.handle_open_chat(3, "cy"));
    all.extend(c.handle_open_chat(2, "bob"));
    all.extend(c.send_msg_as(1, "a"));
    all.extend(server(&mut c, recv(2, 50, 2, "b")));
    all.extend(server(&mut c, ServerMsg::UserFound { user: user(9, "zed") }));
    all.extend(server(&mut c, ServerMsg::Error {
        code: ErrorCode::ConversationNotFound,
        text: text("gone"),
    }));
    assert!(!all.iter().any(|a| matches!(a, Action::Send(_))));
}

#[test]
fn search_goes_to_the_server() {
    let mut c = AppController::new();
    c.sender_slot = true;
    same(
        &c.handle_search_user("bob"),
        vec![Action::Send(ClientMsg::SearchUser { login: text("bob") })],
    );
    same(&server(&mut c, ServerMsg::UserNotFound), vec![result("User not found.")]);
}

#[test]
fn delivery_moves_forward_only() {
    let mut c = in_dialog();
    c.send_msg_as(77, "a");
    c.send_msg_as(78, "b");
    let ack = ServerMsg::MsgAck { message_id: 77, conv_id: 50 };
    let read = ServerMsg::MsgRead { message_id: 77, conv_id: 50 };
    let actions = server(&mut c, ack.clone());
    same(&actions, vec![Action::Post(messages(2, vec![("a", true, 1), ("b", true, 0)]))]);
    server(&mut c, read);
    let actions = server(&mut c, ack);
    same(&actions, vec![Action::Post(messages(2, vec![("a", true, 2), ("b", true, 0)]))]);
    server(&mut c, ServerMsg::MsgAck { message_id: 99, conv_id: 50 });
    server(&mut c, ServerMsg::MsgRead { message_id: 77, conv_id: 51 });
    let states: Vec<DeliveryStatus> = c.state.messages[&50].iter().map(|m| m.status).collect();
    assert_eq!(states, vec![DeliveryStatus::Read, DeliveryStatus::Sending]);
    assert!(c.state.messages.get(&51).is_none());
}

#[test]
fn message_in_the_open_dialog_is_read() {
    let mut c = in_dialog();
    let actions = server(&mut c, recv(5, 50, 2, "hi"));
    let mut expected = vec![Action::Post(messages(2, vec![("hi", false, 0)]))];
    expected.extend(scroll());
    expected.push(Action::Send(ClientMsg::MarkRead { message_id: 5 }));
    same(&actions, expected);
    assert_eq!(c.state.unread.get(&2), Some(&0));
}

#[test]
fn message_elsewhere_is_counted() {
    let mut c = in_dialog();
    server(&mut c, recv(5, 60, 3, "x"));
    let actions = server(&mut c, recv(6, 60, 3, "y"));
    same(&actions, vec![Action::Post(friends(vec![("bob", 2, 0), ("cy", 3, 2)]))]);
    assert_eq!(c.state.messages[&60].len(), 2);
    let actions = c.handle_open_chat(3, "cy");
    assert!(format!("{:?}", actions).contains("unread: 0"));
    assert_eq!(c.state.unread.get(&3), Some(&0));
}

#[test]
fn full_count_cannot_grow() {
    let mut c = in_dialog();
    c.state.unread.insert(3, usize::MAX);
    c.state.unread.insert(2, usize::MAX);
    assert!(!c.can_handle(&UiEvent::Server(recv(5, 60, 3, "x"))));
    assert!(c.can_handle(&UiEvent::Server(recv(5, 50, 2, "x"))));
    assert!(c.can_handle(&UiEvent::Server(ServerMsg::UserNotFound)));
}

fn entry(id: u128, sender: i64, content: &str, is_read: bool) -> HistoryEntry {
    HistoryEntry {
        message_id: id,
        sender_user_id: sender,
        timestamp: 0,
        content: text(content),
        is_read,
    }
}

#[test]
fn history_replaces_and_marks() {
    let mut c = in_dialog();
    c.send_msg_as(77, "old");
    let entries = vec![
        entry(1, 2, "a", true),
        entry(2, 1, "b", false),
        entry(3, 1, "c", true),
        entry(4, 2, "d", false),
        entry(5, 2, "e", false),
    ];
    let actions = c.handle_ui_event(UiEvent::HistoryBatch { conv_id: 50, entries });
    let mut expected = vec![Action::Post(messages(
        2,
        vec![("a", false, 2), ("b", true, 1), ("c", true, 2), ("d", false, 0), ("e", false, 0)],
    ))];
    expected.extend(scroll());
    expected.push(Action::Send(ClientMsg::MarkRead { message_id: 4 }));
    expected.push(Action::Send(ClientMsg::MarkRead { message_id: 5 }));
    same(&actions, expected);
}

#[test]
fn history_of_another_conversation_is_kept_quietly() {
    let mut c = in_dialog();
    let entries = vec![entry(4, 3, "d", false)];
    let actions = c.handle_ui_event(UiEvent::HistoryBatch { conv_id: 60, entries });
    let mut expected = vec![Action::Post(messages(2, vec![]))];
    expected.extend(scroll());
    same(&actions, expected);
    assert_eq!(c.state.messages[&60][0].text, "d");
}

fn refuse(c: &mut AppController, code: ErrorCode) -> Vec<Action> {
    server(c, ServerMsg::Error { code, text: text("as the server says") })
}

#[test]
fn lost_conversation_is_asked_for_again() {
    let mut c = in_dialog();
    server(&mut c, recv(5, 50, 2, "hi"));
    server(&mut c, recv(6, 60, 3, "yo"));
    let actions = refuse(&mut c, ErrorCode::ConversationNotFound);
    same(
        &actions,
        vec![
            Action::Post(messages(2, vec![])),
            Action::Send(ClientMsg::ResolveDm { peer_user_id: 2 }),
        ],
    );
    assert_eq!(c.state.active_peer_id, Some(2));
    assert!(c.state.active_conv.is_none() && c.state.messages.get(&50).is_none());
    assert_eq!(c.state.messages[&60].len(), 1);
    let actions = c.handle_open_chat(2, "bob");
    assert!(actions.iter().any(|a| matches!(
        a,
        Action::Send(ClientMsg::ResolveDm { peer_user_id: 2 })
    )));
}

#[test]
fn refusals_have_their_words() {
    let mut c = in_dialog();
    same(
        &refuse(&mut c, ErrorCode::NotFriends),
        vec![
            Action::Post(messages(2, vec![])),
            result("You are not friends with bob. Search for 'bob' to send a request."),
        ],
    );
    let mut c = in_dialog();
    same(
        &refuse(&mut c, ErrorCode::NotAMember),
        vec![
            Action::Post(messages(2, vec![])),
            status("You are no longer a member of this conversation."),
        ],
    );
    assert!(c.state.active_conv.is_none());
    for code in [
        ErrorCode::AlreadyFriends,
        ErrorCode::NoPendingRequest,
        ErrorCode::CannotTargetYourself,
        ErrorCode::UserNotFound,
    ] {
        let mut c = in_dialog();
        same(&refuse(&mut c, code), vec![result("as the server says")]);
        assert_eq!(c.state.active_conv, Some(50));
    }
    let mut c = in_dialog();
    same(&refuse(&mut c, ErrorCode::MessageTooLong), vec![status("Message is too long.")]);
    for code in [
        ErrorCode::UnsupportedProtocolVersion,
        ErrorCode::InvalidCredentials,
        ErrorCode::RegistrationFailed,
        ErrorCode::MalformedFrame,
        ErrorCode::Internal,
    ] {
        let mut c = in_dialog();
        same(
            &refuse(&mut c, code),
            vec![status("as the server says"), Action::Post(UiUpdate::CurrentScreen(0))],
        );
    }
}

#[test]
fn login_saves_the_session() {
    let mut c = AppController::new();
    c.handle_connect(&AppSettings::default(), "h:1", "ann", "pw", false);
    let actions =
        server(&mut c, ServerMsg::AuthOk { user_id: 7, token: text("tok"), expires_at: 99 });
    same(
        &actions,
        vec![
            Action::SaveSession(save_session("h:1", "ann", "tok", 7, 99)),
            Action::Post(UiUpdate::CurrentScreen(1)),
        ],
    );
    assert_eq!(c.state.my_user_id, 7);
}

#[test]
fn friends_are_listed_once() {
    let mut c = AppController::new();
    let actions = server(&mut c, ServerMsg::FriendAdded { user: user(2, "bob") });
    same(&actions, vec![Action::Post(friends(vec![("bob", 2, 0)]))]);
    same(&server(&mut c, ServerMsg::FriendAdded { user: user(2, "bob") }), vec![]);
    assert_eq!(c.state.friends.len(), 1);
}

#[test]
fn friends_list_is_replaced_and_counts_with_it() {
    let mut c = in_dialog();
    server(&mut c, recv(6, 60, 3, "yo"));
    let actions = server(&mut c, ServerMsg::FriendList { entries: vec![user(3, "cy")] });
    same(&actions, vec![Action::Post(friends(vec![("cy", 3, 0)]))]);
    assert!(c.state.unread.is_empty());
}

#[test]
fn requests_are_told_and_accepted_on_search() {
    let mut c = AppController::new();
    c.sender_slot = true;
    same(&server(&mut c, ServerMsg::PendingReqs { entries: vec![] }), vec![]);
    let entries = vec![user(4, "dan"), user(5, "eve")];
    same(
        &server(&mut c, ServerMsg::PendingReqs { entries }),
        vec![result("Pending friend requests from: dan, eve")],
    );
    same(
        &server(&mut c, ServerMsg::IncomingReq { from: user(6, "fay") }),
        vec![result("Incoming request from: fay. Search for 'fay' to accept!")],
    );
    same(
        &server(&mut c, ServerMsg::UserFound { user: user(5, "eve") }),
        vec![
            Action::Send(ClientMsg::AcceptFriend { target_user_id: 5 }),
            result("Accepted friend request from eve."),
        ],
    );
    let left: Vec<i64> = c.state.incoming_reqs.iter().map(|u| u.user_id).collect();
    assert_eq!(left, vec![4, 6]);
    same(
        &server(&mut c, ServerMsg::UserFound { user: user(9, "zed") }),
        vec![
            Action::Send(ClientMsg::FriendReq { target_user_id: 9 }),
            result("Sent friend request to zed."),
        ],
    );
    c.state.friends.push(user(9, "zed"));
    same(
        &server(&mut c, ServerMsg::UserFound { user: user(9, "zed") }),
        vec![result("zed is already your friend.")],
    );
}

#[test]
fn request_stays_pending_without_a_channel() {
    let mut c = AppController::new();
    c.state.incoming_reqs.push(user(5, "eve"));
    same(
        &server(&mut c, ServerMsg::UserFound { user: user(5, "eve") }),
        vec![result("Accepted friend request from eve.")],
    );
    assert_eq!(c.state.incoming_reqs.len(), 1);
}

fn assert_forgotten(c: &AppController) {
    assert!(c.state.active_peer_id.is_none() && c.state.active_conv.is_none());
    assert_eq!(c.state.active_peer_login, "");
    assert_eq!(c.state.my_user_id, 0);
    assert!(c.state.conv.is_empty() && c.state.messages.is_empty() && c.state.unread.is_empty());
    assert_eq!(c.state.friends.len(), 2);
    assert!(follows_peer(&c.state));
}

#[test]
fn lost_connection_forgets_the_session() {
    let mut c = in_dialog();
    c.send_msg_as(1, "a");
    let actions = c.handle_ui_event(UiEvent::Disconnected(text("Connection closed")));
    same(
        &actions,
        vec![
            status("Connection closed"),
            Action::Post(UiUpdate::CurrentScreen(0)),
            Action::Post(UiUpdate::ActivePeerId(-1)),
            Action::Post(UiUpdate::ActivePeerLogin(text(""))),
            Action::Post(messages(-1, vec![])),
        ],
    );
    assert_forgotten(&c);
    assert!(c.sender_slot);
}

#[test]
fn ended_session_is_cleared() {
    let mut c = in_dialog();
    c.send_msg_as(1, "a");
    let actions = c.handle_disconnect();
    same(
        &actions,
        vec![
            Action::CloseSender,
            Action::ClearSession,
            Action::Show(UiUpdate::CurrentScreen(0)),
            Action::Show(UiUpdate::ActivePeerId(-1)),
            Action::Show(UiUpdate::ActivePeerLogin(text(""))),
            Action::Show(messages(-1, vec![])),
        ],
    );
    assert_forgotten(&c);
    assert!(!c.sender_slot);
}

#[test]
fn address_is_saved_beside_the_session() {
    let c = AppController::new();
    let stored = save_session("old:1", "old", "tok", 7, 99);
    same(
        &c.handle_save_settings(&stored, Some(text("ann")), "new:2"),
        vec![Action::SaveSession(save_session("new:2", "ann", "tok", 7, 99))],
    );
    same(
        &c.handle_save_settings(&AppSettings::default(), None, "new:2"),
        vec![Action::SaveSession(save_session("new:2", "", "", 0, 0))],
    );
}

#[test]
fn window_keeps_the_lines_of_another_dialog() {
    let line = |t: &str| MessageEntry { text: text(t), is_outgoing: false, status: 0 };
    let mut shown = vec![line("old")];
    assert!(!write_messages(3, &mut shown, 2, vec![line("new")]));
    assert_eq!(shown[0].text, "old");
    assert!(write_messages(2, &mut shown, 2, vec![line("new"), line("newer")]));
    assert_eq!(shown.len(), 2);
    assert_eq!(shown[0].text, "new");
}

#[test]
fn messages_the_client_has_no_use_for_change_nothing() {
    let mut c = in_dialog();
    for msg in [
        ServerMsg::Other,
        ServerMsg::HistoryEnd,
        ServerMsg::AuthFailed { reason: text("no") },
        ServerMsg::PowChallenge { challenge: text("c"), difficulty_bits: 1 },
    ] {
        same(&server(&mut c, msg), vec![]);
    }
    assert_eq!(c.state.active_conv, Some(50));
}
