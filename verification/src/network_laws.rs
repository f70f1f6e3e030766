//! What holds of every connection.

use crate::framing::{has_newline, law_whole_line_ends_with_newline, line_of, LineStep};
use crate::network::{after_frame, after_net_event, expects, is_auto_login, NetEventView};
use crate::network::{NetRequestView, NetStepView, NetworkTaskView, Phase};
use crate::protocol::{AuthMethodView, ClientMsgView, ConvId, ServerMsgView};
use crate::step_laws::law_line;
use crate::text::white_space;
use crate::types::{HistoryEntryView, UiEventView};
use vstd::prelude::*;

verus! {

/// A connection is over exactly when its last request was to close it, and
/// then no event can follow.
pub proof fn law_closing_is_the_end(t: NetworkTaskView, event: NetEventView, later: NetEventView)
    requires
        expects(t.phase, event),
    ensures
        ({
            let (u, step) = after_net_event(t, event);
            &&& u.phase == Phase::Done <==> step.request == NetRequestView::Finish
            &&& u.phase == Phase::Done ==> !expects(u.phase, later)
        }),
{
}

/// The client learns of the end of every connection, as a disconnection or as
/// a refused login, and a disconnection is reported only when the connection
/// closes.
pub proof fn law_every_end_is_reported(t: NetworkTaskView, event: NetEventView)
    requires
        expects(t.phase, event),
    ensures
        ({
            let (u, step) = after_net_event(t, event);
            &&& step.request == NetRequestView::Finish ==> match step.report {
                Some(UiEventView::Disconnected(_)) => true,
                Some(UiEventView::Server(ServerMsgView::AuthFailed { .. })) => true,
                _ => false,
            }
            &&& (step.report matches Some(UiEventView::Disconnected(_))) ==> step.request
                == NetRequestView::Finish
        }),
{
}

/// Whether a connection is past the point at which the client was let in.
pub open spec fn let_in(phase: Phase) -> bool {
    phase == Phase::Running || phase == Phase::FrameDecode || phase == Phase::CommandWrite
}

/// The client is let in by the server's consent and by nothing else; until
/// then it hears of nothing but that consent, its refusal or the end of the
/// connection.
pub proof fn law_only_consent_lets_in(t: NetworkTaskView, event: NetEventView)
    requires
        expects(t.phase, event),
        !let_in(t.phase),
    ensures
        ({
            let (u, step) = after_net_event(t, event);
            &&& let_in(u.phase) <==> (event matches NetEventView::Decoded(
                Some(ServerMsgView::AuthOk { .. }),
            ))
            &&& match step.report {
                Some(UiEventView::Server(ServerMsgView::AuthOk { .. })) => let_in(u.phase),
                Some(UiEventView::Server(ServerMsgView::AuthFailed { .. })) => u.phase
                    == Phase::Done,
                Some(UiEventView::Disconnected(_)) => u.phase == Phase::Done,
                Some(_) => false,
                None => true,
            }
        }),
{
}

/// A connection that was let in stays so until it is over.
pub proof fn law_let_in_until_the_end(t: NetworkTaskView, event: NetEventView)
    requires
        expects(t.phase, event),
        let_in(t.phase),
    ensures
        ({
            let (u, step) = after_net_event(t, event);
            let_in(u.phase) || u.phase == Phase::Done
        }),
{
}

/// The client asks to be let in with the stored token exactly when it resumes
/// a session; a password goes out only in a registration or a login that was
/// asked for with it.
pub proof fn law_credentials_are_those_given(t: NetworkTaskView, event: NetEventView)
    requires
        expects(t.phase, event),
        t.phase == Phase::Token ==> is_auto_login(t),
    ensures
        ({
            let (u, step) = after_net_event(t, event);
            &&& u.phase == Phase::Token ==> is_auto_login(u)
            &&& !let_in(t.phase) ==> match step.request {
                NetRequestView::Write(ClientMsgView::Auth { method }) => match method {
                    AuthMethodView::Token { token } => is_auto_login(t) && event
                        == NetEventView::TokenLoaded(Some(token)),
                    AuthMethodView::Register { login, password } => t.is_register && login
                        == t.login && password == t.password,
                    AuthMethodView::Login { login, password } => !t.is_register && login
                        == t.login && password == t.password && password.len() > 0,
                },
                _ => true,
            }
        }),
{
}

/// Every command of the client goes to the server as it is.
pub proof fn law_commands_are_passed_on(t: NetworkTaskView, cmd: ClientMsgView)
    requires
        t.phase == Phase::Running,
    ensures
        after_net_event(t, NetEventView::Command(Some(cmd))).1 == (NetStepView {
            report: None,
            request: NetRequestView::Write(cmd),
        }),
{
}

/// A line that was read ends the connection exactly when the stream ended
/// before its newline; a whole line never does, whatever its bytes are.
pub proof fn law_only_a_cut_line_ends(
    t: NetworkTaskView,
    max: usize,
    stream: Seq<u8>,
    ended: bool,
    step: LineStep,
)
    requires
        t.phase == Phase::Handshake || t.phase == Phase::Running,
        step.shows(line_of(max, stream, ended)),
        step is Line,
    ensures
        after_net_event(t, NetEventView::Line(step->Line_0@)).0.phase == Phase::Done
            <==> !has_newline(stream),
{
    law_whole_line_ends_with_newline(max, stream, ended, step);
}

/// A message of the history, as the server sends it.
pub open spec fn history_msg(e: HistoryEntryView) -> ServerMsgView {
    ServerMsgView::HistoryMsg {
        message_id: e.message_id,
        sender_user_id: e.sender_user_id,
        timestamp: e.timestamp,
        content: e.content,
        is_read: e.is_read,
    }
}

/// The connection after messages of a history have come in, one after the
/// other.
pub open spec fn after_history_msgs(t: NetworkTaskView, msgs: Seq<HistoryEntryView>) ->
    NetworkTaskView
    decreases msgs.len(),
{
    if msgs.len() == 0 {
        t
    } else {
        after_frame(after_history_msgs(t, msgs.drop_last()), Some(history_msg(msgs.last()))).0
    }
}

proof fn lemma_history_msgs(t: NetworkTaskView, msgs: Seq<HistoryEntryView>)
    ensures
        after_history_msgs(t, msgs) == (NetworkTaskView {
            phase: if msgs.len() == 0 {
                t.phase
            } else {
                Phase::Running
            },
            history_buf: if t.history_conv is Some {
                t.history_buf + msgs
            } else {
                t.history_buf
            },
            ..t
        }),
    decreases msgs.len(),
{
    if msgs.len() == 0 {
        assert(t.history_buf + msgs =~= t.history_buf);
    } else {
        lemma_history_msgs(t, msgs.drop_last());
        assert((t.history_buf + msgs.drop_last()).push(msgs.last()) =~= t.history_buf + msgs);
    }
}

/// A history that was asked for is reported whole when it ends: as the history
/// of the conversation it was asked for, with the messages that came since, in
/// the opposite of the order in which they came.
pub proof fn law_history_is_reported_whole(
    t: NetworkTaskView,
    conv_id: ConvId,
    msgs: Seq<HistoryEntryView>,
)
    requires
        t.phase == Phase::Running,
    ensures
        ({
            let asked = after_net_event(
                t,
                NetEventView::Command(Some(ClientMsgView::HistoryReq { conv_id })),
            ).0;
            let (u, step) = after_frame(
                after_history_msgs(asked, msgs),
                Some(ServerMsgView::HistoryEnd),
            );
            &&& step.report == Some(
                UiEventView::HistoryBatch { conv_id, entries: msgs.reverse() },
            )
            &&& u.history_conv is None
            &&& u.history_buf.len() == 0
        }),
{
    let asked = after_net_event(
        t,
        NetEventView::Command(Some(ClientMsgView::HistoryReq { conv_id })),
    ).0;
    lemma_history_msgs(asked, msgs);
    assert(Seq::<HistoryEntryView>::empty() + msgs =~= msgs);
}

/// A history that nobody asked for is not reported.
pub proof fn law_unasked_history_is_dropped(t: NetworkTaskView, msgs: Seq<HistoryEntryView>)
    requires
        t.history_conv is None,
    ensures
        after_history_msgs(t, msgs).history_buf == t.history_buf,
        after_frame(after_history_msgs(t, msgs), Some(ServerMsgView::HistoryEnd)).1.report is None,
{
    lemma_history_msgs(t, msgs);
}

/// The connection after a message of the server has come in on a line and was
/// decoded, and the step that follows.
pub open spec fn after_message(t: NetworkTaskView, line: Seq<char>, msg: ServerMsgView) -> (
    NetworkTaskView,
    NetStepView,
) {
    let read = after_net_event(t, NetEventView::Line(line)).0;
    after_net_event(read, NetEventView::Decoded(Some(msg)))
}

/// Whether a line is a whole one and holds more than white space.
pub open spec fn holds_message(line: Seq<char>) -> bool {
    line.len() > 0 && line.last() == '\n' && exists|i: int|
        0 <= i < line.len() && !white_space(#[trigger] line[i])
}

/// The connection after the messages of a history have come in, one after the
/// other and each on its line.
pub open spec fn after_history(
    t: NetworkTaskView,
    lines: Seq<Seq<char>>,
    msgs: Seq<HistoryEntryView>,
) -> NetworkTaskView
    decreases msgs.len(),
{
    if msgs.len() == 0 {
        t
    } else {
        after_message(
            after_history(t, lines, msgs.drop_last()),
            lines[msgs.len() - 1],
            history_msg(msgs.last()),
        ).0
    }
}

proof fn lemma_line_is_decoded(t: NetworkTaskView, line: Seq<char>)
    requires
        t.phase == Phase::Running,
        holds_message(line),
    ensures
        after_net_event(t, NetEventView::Line(line)).0 == (NetworkTaskView {
            phase: Phase::FrameDecode,
            ..t
        }),
{
    law_line(t, line, Seq::empty());
}

proof fn lemma_history(t: NetworkTaskView, lines: Seq<Seq<char>>, msgs: Seq<HistoryEntryView>)
    requires
        t.phase == Phase::Running,
        lines.len() >= msgs.len(),
        forall|i: int| 0 <= i < lines.len() ==> holds_message(#[trigger] lines[i]),
    ensures
        after_history(t, lines, msgs) == (NetworkTaskView {
            history_buf: if t.history_conv is Some {
                t.history_buf + msgs
            } else {
                t.history_buf
            },
            ..t
        }),
    decreases msgs.len(),
{
    if msgs.len() == 0 {
        assert(t.history_buf + msgs =~= t.history_buf);
    } else {
        lemma_history(t, lines, msgs.drop_last());
        lemma_line_is_decoded(after_history(t, lines, msgs.drop_last()), lines[msgs.len() - 1]);
        assert((t.history_buf + msgs.drop_last()).push(msgs.last()) =~= t.history_buf + msgs);
    }
}

/// A history that was asked for over a waiting connection and has come in line
/// by line is reported whole when it ends: as the history of the conversation
/// it was asked for, in the opposite of the order in which it came.
pub proof fn law_history_off_the_stream_is_reported(
    t: NetworkTaskView,
    conv_id: ConvId,
    lines: Seq<Seq<char>>,
    msgs: Seq<HistoryEntryView>,
)
    requires
        t.phase == Phase::Running,
        lines.len() == msgs.len() + 1,
        forall|i: int| 0 <= i < lines.len() ==> holds_message(#[trigger] lines[i]),
    ensures
        ({
            let asked = after_net_event(
                t,
                NetEventView::Command(Some(ClientMsgView::HistoryReq { conv_id })),
            ).0;
            let waiting = after_net_event(asked, NetEventView::Written(Ok(()))).0;
            let (u, step) = after_message(
                after_history(waiting, lines, msgs),
                lines.last(),
                ServerMsgView::HistoryEnd,
            );
            &&& step.report == Some(
                UiEventView::HistoryBatch { conv_id, entries: msgs.reverse() },
            )
            &&& u.phase == Phase::Running
            &&& u.history_conv is None
            &&& u.history_buf.len() == 0
        }),
{
    let asked = after_net_event(
        t,
        NetEventView::Command(Some(ClientMsgView::HistoryReq { conv_id })),
    ).0;
    let waiting = after_net_event(asked, NetEventView::Written(Ok(()))).0;
    lemma_history(waiting, lines, msgs);
    lemma_line_is_decoded(after_history(waiting, lines, msgs), lines[lines.len() - 1]);
    assert(Seq::<HistoryEntryView>::empty() + msgs =~= msgs);
}

/// A history that nobody asked for and that has come in line by line is not
/// reported.
pub proof fn law_unasked_history_off_the_stream_is_dropped(
    t: NetworkTaskView,
    lines: Seq<Seq<char>>,
    msgs: Seq<HistoryEntryView>,
)
    requires
        t.phase == Phase::Running,
        t.history_conv is None,
        lines.len() == msgs.len() + 1,
        forall|i: int| 0 <= i < lines.len() ==> holds_message(#[trigger] lines[i]),
    ensures
        after_history(t, lines, msgs) == t,
        after_message(
            after_history(t, lines, msgs),
            lines.last(),
            ServerMsgView::HistoryEnd,
        ).1.report is None,
{
    lemma_history(t, lines, msgs);
    lemma_line_is_decoded(t, lines[lines.len() - 1]);
}

} // verus!
