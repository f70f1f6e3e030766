//! The values that the client keeps and passes around.

use crate::protocol::{ConvId, MessageId, ServerMsg, ServerMsgView};
use crate::views::views;
use vstd::prelude::*;

verus! {

/// The colours of the log, in the order of their numbers on the screen.
#[derive(Debug, Clone, Copy, PartialEq, Eq, Structural)]
pub enum LogColor {
    White,
    Green,
    Red,
    Yellow,
    Blue,
    Magenta,
}

/// The number by which the screen knows a colour.
pub open spec fn color_number(c: LogColor) -> i32 {
    match c {
        LogColor::White => 0,
        LogColor::Green => 1,
        LogColor::Red => 2,
        LogColor::Yellow => 3,
        LogColor::Blue => 4,
        LogColor::Magenta => 5,
    }
}

impl From<LogColor> for i32 {
    fn from(c: LogColor) -> (r: i32) {
        match c {
            LogColor::White => 0,
            LogColor::Green => 1,
            LogColor::Red => 2,
            LogColor::Yellow => 3,
            LogColor::Blue => 4,
            LogColor::Magenta => 5,
        }
    }
}

impl vstd::std_specs::convert::FromSpecImpl<LogColor> for i32 {
    open spec fn obeys_from_spec() -> bool {
        true
    }

    open spec fn from_spec(c: LogColor) -> i32 {
        color_number(c)
    }
}

/// A message as the server's history lists it.
#[derive(Debug, Clone)]
pub struct HistoryEntry {
    pub message_id: MessageId,
    pub sender_user_id: i64,
    pub timestamp: i64,
    pub content: String,
    pub is_read: bool,
}

#[verifier::ext_equal]
pub struct HistoryEntryView {
    pub message_id: MessageId,
    pub sender_user_id: i64,
    pub timestamp: i64,
    pub content: Seq<char>,
    pub is_read: bool,
}

impl View for HistoryEntry {
    type V = HistoryEntryView;

    open spec fn view(&self) -> HistoryEntryView {
        HistoryEntryView {
            message_id: self.message_id,
            sender_user_id: self.sender_user_id,
            timestamp: self.timestamp,
            content: self.content@,
            is_read: self.is_read,
        }
    }
}

/// Delivery state of a message, ordered from "not sent yet" to "read by peer".
///
/// The numbers that [`DeliveryStatus::number`] gives are what the screen shows
/// a state by.
#[derive(Debug, Clone, Copy, PartialEq, Eq, PartialOrd, Ord, Structural)]
pub enum DeliveryStatus {
    /// Locally queued, the server has not acknowledged it yet.
    Sending,
    /// Stored by the server.
    Sent,
    /// Read by the peer.
    Read,
}

/// The place of a delivery state in their order, and its number on the screen.
pub open spec fn status_number(s: DeliveryStatus) -> i32 {
    match s {
        DeliveryStatus::Sending => 0,
        DeliveryStatus::Sent => 1,
        DeliveryStatus::Read => 2,
    }
}

/// The later of two delivery states.
pub open spec fn later(a: DeliveryStatus, b: DeliveryStatus) -> DeliveryStatus {
    if status_number(a) < status_number(b) {
        b
    } else {
        a
    }
}

/// The delivery states are numbered in the order in which a message goes
/// through them, and the later of two is the one of the two that is further.
pub proof fn law_delivery_states_are_ordered(a: DeliveryStatus, b: DeliveryStatus)
    ensures
        status_number(DeliveryStatus::Sending) == 0,
        status_number(DeliveryStatus::Sent) == 1,
        status_number(DeliveryStatus::Read) == 2,
        later(a, b) == a || later(a, b) == b,
        status_number(later(a, b)) >= status_number(a),
        status_number(later(a, b)) >= status_number(b),
{
}

impl Default for DeliveryStatus {
    fn default() -> (r: Self)
        ensures
            r == DeliveryStatus::Sending,
    {
        DeliveryStatus::Sending
    }
}

impl DeliveryStatus {
    /// The number of this state.
    pub fn number(self) -> (r: i32)
        ensures
            r == status_number(self),
    {
        match self {
            DeliveryStatus::Sending => 0,
            DeliveryStatus::Sent => 1,
            DeliveryStatus::Read => 2,
        }
    }
}

/// A message stored in the local conversation cache.
#[derive(Debug, Clone)]
pub struct ChatMessage {
    pub id: MessageId,
    pub sender_user_id: i64,
    pub text: String,
    pub outgoing: bool,
    pub status: DeliveryStatus,
}

#[verifier::ext_equal]
pub struct ChatMessageView {
    pub id: MessageId,
    pub sender_user_id: i64,
    pub text: Seq<char>,
    pub outgoing: bool,
    pub status: DeliveryStatus,
}

impl View for ChatMessage {
    type V = ChatMessageView;

    open spec fn view(&self) -> ChatMessageView {
        ChatMessageView {
            id: self.id,
            sender_user_id: self.sender_user_id,
            text: self.text@,
            outgoing: self.outgoing,
            status: self.status,
        }
    }
}

/// What the network side reports to the controller.
#[derive(Debug, Clone)]
pub enum UiEvent {
    Server(ServerMsg),
    /// The history of a conversation, oldest message first.
    HistoryBatch { conv_id: ConvId, entries: Vec<HistoryEntry> },
    /// The connection is over, for the reason given.
    Disconnected(String),
}

#[verifier::ext_equal]
pub enum UiEventView {
    Server(ServerMsgView),
    HistoryBatch { conv_id: ConvId, entries: Seq<HistoryEntryView> },
    Disconnected(Seq<char>),
}

impl View for UiEvent {
    type V = UiEventView;

    open spec fn view(&self) -> UiEventView {
        match *self {
            UiEvent::Server(msg) => UiEventView::Server(msg@),
            UiEvent::HistoryBatch { conv_id, entries } => UiEventView::HistoryBatch {
                conv_id,
                entries: views(entries@),
            },
            UiEvent::Disconnected(reason) => UiEventView::Disconnected(reason@),
        }
    }
}

} // verus!
