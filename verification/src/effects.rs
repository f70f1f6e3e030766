//! What the handlers ask the program around them to do.

use crate::protocol::{ClientMsg, ClientMsgView};
use crate::settings::{AppSettings, AppSettingsView};
use crate::views::views;
use vstd::prelude::*;

verus! {

/// A line of the friends list.
#[derive(Debug, Clone)]
pub struct FriendEntry {
    pub login: String,
    pub user_id: i32,
    pub unread: i32,
}

#[verifier::ext_equal]
pub struct FriendEntryView {
    pub login: Seq<char>,
    pub user_id: i32,
    pub unread: i32,
}

impl View for FriendEntry {
    type V = FriendEntryView;

    open spec fn view(&self) -> FriendEntryView {
        FriendEntryView { login: self.login@, user_id: self.user_id, unread: self.unread }
    }
}

/// A line of the open dialog.
#[derive(Debug, Clone)]
pub struct MessageEntry {
    pub text: String,
    pub is_outgoing: bool,
    pub status: i32,
}

#[verifier::ext_equal]
pub struct MessageEntryView {
    pub text: Seq<char>,
    pub is_outgoing: bool,
    pub status: i32,
}

impl View for MessageEntry {
    type V = MessageEntryView;

    open spec fn view(&self) -> MessageEntryView {
        MessageEntryView { text: self.text@, is_outgoing: self.is_outgoing, status: self.status }
    }
}

/// A change of one property of the window.
#[derive(Debug, Clone)]
pub enum UiUpdate {
    StatusMessage(String),
    SearchResult(String),
    CurrentScreen(i32),
    ActivePeerId(i32),
    ActivePeerLogin(String),
    ServerAddress(String),
    LoginText(String),
    PasswordStrength(i32),
    PasswordStrengthText(String),
    ScrollPending(bool),
    /// The whole friends list.
    FriendsList(Vec<FriendEntry>),
    /// The whole dialog with `peer_id`, for a window that still shows it.
    Messages { peer_id: i32, entries: Vec<MessageEntry> },
}

#[verifier::ext_equal]
pub enum UiUpdateView {
    StatusMessage(Seq<char>),
    SearchResult(Seq<char>),
    CurrentScreen(i32),
    ActivePeerId(i32),
    ActivePeerLogin(Seq<char>),
    ServerAddress(Seq<char>),
    LoginText(Seq<char>),
    PasswordStrength(i32),
    PasswordStrengthText(Seq<char>),
    ScrollPending(bool),
    FriendsList(Seq<FriendEntryView>),
    Messages { peer_id: i32, entries: Seq<MessageEntryView> },
}

impl View for UiUpdate {
    type V = UiUpdateView;

    open spec fn view(&self) -> UiUpdateView {
        match *self {
            UiUpdate::StatusMessage(s) => UiUpdateView::StatusMessage(s@),
            UiUpdate::SearchResult(s) => UiUpdateView::SearchResult(s@),
            UiUpdate::CurrentScreen(n) => UiUpdateView::CurrentScreen(n),
            UiUpdate::ActivePeerId(n) => UiUpdateView::ActivePeerId(n),
            UiUpdate::ActivePeerLogin(s) => UiUpdateView::ActivePeerLogin(s@),
            UiUpdate::ServerAddress(s) => UiUpdateView::ServerAddress(s@),
            UiUpdate::LoginText(s) => UiUpdateView::LoginText(s@),
            UiUpdate::PasswordStrength(n) => UiUpdateView::PasswordStrength(n),
            UiUpdate::PasswordStrengthText(s) => UiUpdateView::PasswordStrengthText(s@),
            UiUpdate::ScrollPending(b) => UiUpdateView::ScrollPending(b),
            UiUpdate::FriendsList(entries) => UiUpdateView::FriendsList(views(entries@)),
            UiUpdate::Messages { peer_id, entries } => UiUpdateView::Messages {
                peer_id,
                entries: views(entries@),
            },
        }
    }
}

/// One thing to do; a handler's actions are performed in their order.
#[derive(Debug, Clone)]
pub enum Action {
    /// Change the window before the handler returns to its caller.
    Show(UiUpdate),
    /// Change the window when its event loop comes to it.
    Post(UiUpdate),
    /// Change the window after a delay.
    PostAfter { millis: u64, update: UiUpdate },
    /// Hand a message to the network task.
    Send(ClientMsg),
    /// Write these settings to the settings file.
    SaveSession(AppSettings),
    /// Take the session out of the settings file.
    ClearSession,
    /// Drop the channel to the network task.
    CloseSender,
    /// Open a channel and start a network task on it.
    StartNetwork { server_addr: String, login: String, password: String, is_register: bool },
}

#[verifier::ext_equal]
pub enum ActionView {
    Show(UiUpdateView),
    Post(UiUpdateView),
    PostAfter { millis: u64, update: UiUpdateView },
    Send(ClientMsgView),
    SaveSession(AppSettingsView),
    ClearSession,
    CloseSender,
    StartNetwork {
        server_addr: Seq<char>,
        login: Seq<char>,
        password: Seq<char>,
        is_register: bool,
    },
}

impl View for Action {
    type V = ActionView;

    open spec fn view(&self) -> ActionView {
        match *self {
            Action::Show(u) => ActionView::Show(u@),
            Action::Post(u) => ActionView::Post(u@),
            Action::PostAfter { millis, update } => ActionView::PostAfter {
                millis,
                update: update@,
            },
            Action::Send(m) => ActionView::Send(m@),
            Action::SaveSession(s) => ActionView::SaveSession(s@),
            Action::ClearSession => ActionView::ClearSession,
            Action::CloseSender => ActionView::CloseSender,
            Action::StartNetwork { server_addr, login, password, is_register } =>
                ActionView::StartNetwork {
                    server_addr: server_addr@,
                    login: login@,
                    password: password@,
                    is_register,
                },
        }
    }
}

} // verus!
