use zeevum_client::framing::{LineReader, LineStep};
use zeevum_client::network::{
    network_task, NetEvent, NetRequest, NetStep, NetworkTask, Outcome, Phase,
};
use zeevum_client::protocol::{AuthMethod, ClientMsg, ServerMsg};
use zeevum_client::types::UiEvent;

fn task(addr: &str, password: &str, is_register: bool) -> NetworkTask {
    NetworkTask::new(addr.to_string(), "ann".to_string(), password.to_string(), is_register)
}

fn at(phase: Phase) -> NetworkTask {
    let mut t = task("chat.example.org:7777", "pw", false);
    t.phase = phase;
    t
}

fn give(t: &mut NetworkTask, event: NetEvent) -> NetStep {
    assert!(t.expects(&event));
    network_task(t, event)
}

fn assert_over(t: &NetworkTask, step: &NetStep, reason: &str) {
    assert_eq!(t.phase, Phase::Done);
    assert!(matches!(step.request, NetRequest::Finish));
    match &step.report {
        Some(UiEvent::Disconnected(r)) => assert_eq!(r, reason),
        other => panic!("{:?}", other),
    }
}

fn text(s: &str) -> String {
    s.to_string()
}

#[test]
fn login_runs_to_the_open_session() {
    let mut t = task("chat.example.org:7777", "pw", false);
    assert!(matches!(give(&mut t, NetEvent::Started).request, NetRequest::LoadRoots));
    match give(&mut t, NetEvent::RootsLoaded(3)).request {
        NetRequest::ConnectTcp { addr } => assert_eq!(addr, "chat.example.org:7777"),
        other => panic!("{:?}", other),
    }
    match give(&mut t, NetEvent::Tcp(Outcome::Success)).request {
        NetRequest::ConnectTls { domain } => assert_eq!(domain, "chat.example.org"),
        other => panic!("{:?}", other),
    }
    match give(&mut t, NetEvent::Tls(Outcome::Success)).request {
        NetRequest::Write(ClientMsg::Auth { method: AuthMethod::Login { login, password } }) => {
            assert_eq!(login, "ann");
            assert_eq!(password, "pw");
        }
        other => panic!("{:?}", other),
    }
    assert!(matches!(give(&mut t, NetEvent::Written(Ok(()))).request, NetRequest::ReadHandshake));
    match give(&mut t, NetEvent::Line(text(" {pow} \r\n"))).request {
        NetRequest::Decode(l) => assert_eq!(l, "{pow}"),
        other => panic!("{:?}", other),
    }
    let challenge = ServerMsg::PowChallenge { challenge: text("c"), difficulty_bits: 20 };
    match give(&mut t, NetEvent::Decoded(Some(challenge))).request {
        NetRequest::SolvePow { challenge, difficulty_bits } => {
            assert_eq!(challenge, "c");
            assert_eq!(difficulty_bits, 20);
        }
        other => panic!("{:?}", other),
    }
    match give(&mut t, NetEvent::Solved(Some(42))).request {
        NetRequest::Write(ClientMsg::PowSolution { nonce }) => assert_eq!(nonce, 42),
        other => panic!("{:?}", other),
    }
    assert!(matches!(give(&mut t, NetEvent::Written(Ok(()))).request, NetRequest::ReadHandshake));
    give(&mut t, NetEvent::Line(text("{ignored}\n")));
    let step = give(&mut t, NetEvent::Decoded(Some(ServerMsg::Other)));
    assert!(step.report.is_none() && matches!(step.request, NetRequest::ReadHandshake));
    give(&mut t, NetEvent::Line(text("{ok}\n")));
    let ok = ServerMsg::AuthOk { user_id: 7, token: text("tok"), expires_at: 99 };
    let step = give(&mut t, NetEvent::Decoded(Some(ok)));
    assert!(matches!(step.request, NetRequest::Wait));
    match step.report {
        Some(UiEvent::Server(ServerMsg::AuthOk { user_id, token, expires_at })) => {
            assert_eq!((user_id, token.as_str(), expires_at), (7, "tok", 99));
        }
        other => panic!("{:?}", other),
    }
    assert_eq!(t.phase, Phase::Running);
}

#[test]
fn registration_sends_what_was_given() {
    let mut t = task("h:1", "pw", true);
    t.phase = Phase::Tls;
    match give(&mut t, NetEvent::Tls(Outcome::Success)).request {
        NetRequest::Write(ClientMsg::Auth { method: AuthMethod::Register { login, password } }) => {
            assert_eq!((login.as_str(), password.as_str()), ("ann", "pw"));
        }
        other => panic!("{:?}", other),
    }
}

#[test]
fn auto_login_takes_the_stored_token() {
    let mut t = task("h:1", "", false);
    t.phase = Phase::Tls;
    assert!(matches!(
        give(&mut t, NetEvent::Tls(Outcome::Success)).request,
        NetRequest::LoadToken
    ));
    match give(&mut t, NetEvent::TokenLoaded(Some(text("tok")))).request {
        NetRequest::Write(ClientMsg::Auth { method: AuthMethod::Token { token } }) => {
            assert_eq!(token, "tok");
        }
        other => panic!("{:?}", other),
    }
}

#[test]
fn every_failure_of_the_connection_has_its_words() {
    let cases: Vec<(Phase, NetEvent, &str)> = vec![
        (Phase::Roots, NetEvent::RootsLoaded(0), "No trusted root certificates found"),
        (Phase::Tcp, NetEvent::Tcp(Outcome::Failed(text("refused"))), "TCP failed: refused"),
        (Phase::Tcp, NetEvent::Tcp(Outcome::TimedOut), "TCP timeout"),
        (Phase::Tls, NetEvent::Tls(Outcome::Failed(text("bad"))), "TLS failed: bad"),
        (Phase::Tls, NetEvent::Tls(Outcome::TimedOut), "TLS timeout"),
        (Phase::Token, NetEvent::TokenLoaded(None), "No token for auto-login"),
        (Phase::Token, NetEvent::TokenLoaded(Some(text(" "))), "No token for auto-login"),
        (Phase::AuthWrite, NetEvent::Written(Err(text("pipe"))), "Write error: pipe"),
        (Phase::Handshake, NetEvent::Line(text("half")), "Connection closed"),
        (Phase::Handshake, NetEvent::ReadFailed(text("eof")), "Read error: eof"),
        (Phase::Handshake, NetEvent::ReadTimedOut, "Handshake timeout"),
        (Phase::HandshakeDecode, NetEvent::Decoded(None), "Malformed handshake frame"),
        (Phase::Pow, NetEvent::Solved(None), "PoW task failed"),
        (Phase::PowWrite, NetEvent::Written(Err(text("pipe"))), "PoW write error: pipe"),
        (Phase::Running, NetEvent::Line(text("")), "Connection closed"),
        (Phase::Running, NetEvent::ReadFailed(text("eof")), "Read error: eof"),
        (Phase::Running, NetEvent::Command(None), "Disconnected"),
        (Phase::FrameDecode, NetEvent::Decoded(None), "Malformed frame from server"),
        (Phase::CommandWrite, NetEvent::Written(Err(text("pipe"))), "Write error: pipe"),
    ];
    for (phase, event, reason) in cases {
        let mut t = at(phase);
        let step = give(&mut t, event);
        assert_over(&t, &step, reason);
        assert!(!t.expects(&NetEvent::Started));
        assert!(!t.expects(&NetEvent::Command(None)));
    }
}

#[test]
fn addresses_without_a_host_are_refused() {
    for addr in ["", ":7777"] {
        let mut t = task(addr, "pw", false);
        let step = give(&mut t, NetEvent::Started);
        assert_over(&t, &step, "Invalid server address");
    }
}

#[test]
fn server_names_are_checked() {
    for addr in ["bad name:1", "-x:1", "123:1", "a..b:1"] {
        let mut t = task(addr, "pw", false);
        t.phase = Phase::Tcp;
        let step = give(&mut t, NetEvent::Tcp(Outcome::Success));
        assert_over(&t, &step, "Invalid domain: invalid dns name");
    }
    for addr in ["localhost:1", "10.0.0.1:1", "a-b.example.org:1"] {
        let mut t = task(addr, "pw", false);
        t.phase = Phase::Tcp;
        let step = give(&mut t, NetEvent::Tcp(Outcome::Success));
        assert!(matches!(step.request, NetRequest::ConnectTls { .. }));
    }
}

#[test]
fn given_check_of_the_name_decides() {
    let mut t = at(Phase::Tcp);
    let step = t.on_server_name(Err(text("no")));
    assert_over(&t, &step, "Invalid domain: no");
    let mut t = at(Phase::Tcp);
    match t.on_server_name(Ok(())).request {
        NetRequest::ConnectTls { domain } => assert_eq!(domain, "chat.example.org"),
        other => panic!("{:?}", other),
    }
    assert_eq!(t.phase, Phase::Tls);
}

#[test]
fn refused_login_ends_the_connection() {
    let mut t = at(Phase::HandshakeDecode);
    let failed = ServerMsg::AuthFailed { reason: text("no") };
    let step = give(&mut t, NetEvent::Decoded(Some(failed)));
    assert!(matches!(step.request, NetRequest::Finish));
    assert!(matches!(
        step.report,
        Some(UiEvent::Server(ServerMsg::AuthFailed { reason })) if reason == "no"
    ));
    assert_eq!(t.phase, Phase::Done);
}

fn history_msg(n: u128) -> NetEvent {
    NetEvent::Decoded(Some(ServerMsg::HistoryMsg {
        message_id: n,
        sender_user_id: 1,
        timestamp: 5,
        content: format!("m{}", n),
        is_read: n % 2 == 0,
    }))
}

fn frame(t: &mut NetworkTask, event: NetEvent) -> NetStep {
    let step = give(t, NetEvent::Line(text("{x}\n")));
    assert!(matches!(step.request, NetRequest::Decode(_)));
    give(t, event)
}

#[test]
fn history_is_reported_whole_and_oldest_first() {
    let mut t = at(Phase::Running);
    match give(&mut t, NetEvent::Command(Some(ClientMsg::HistoryReq { conv_id: 9 }))).request {
        NetRequest::Write(ClientMsg::HistoryReq { conv_id }) => assert_eq!(conv_id, 9),
        other => panic!("{:?}", other),
    }
    assert!(matches!(give(&mut t, NetEvent::Written(Ok(()))).request, NetRequest::Wait));
    for n in [3u128, 2, 1] {
        let step = frame(&mut t, history_msg(n));
        assert!(step.report.is_none() && matches!(step.request, NetRequest::Wait));
    }
    let step = frame(&mut t, NetEvent::Decoded(Some(ServerMsg::HistoryEnd)));
    match step.report {
        Some(UiEvent::HistoryBatch { conv_id, entries }) => {
            assert_eq!(conv_id, 9);
            let ids: Vec<u128> = entries.iter().map(|e| e.message_id).collect();
            assert_eq!(ids, vec![1, 2, 3]);
            assert_eq!(entries[0].content, "m1");
            assert_eq!((entries[0].sender_user_id, entries[0].timestamp), (1, 5));
            assert!(!entries[0].is_read && entries[1].is_read);
        }
        other => panic!("{:?}", other),
    }
    let step = frame(&mut t, NetEvent::Decoded(Some(ServerMsg::HistoryEnd)));
    assert!(step.report.is_none());
}

#[test]
fn unasked_history_is_dropped() {
    let mut t = at(Phase::Running);
    frame(&mut t, history_msg(1));
    let step = frame(&mut t, NetEvent::Decoded(Some(ServerMsg::HistoryEnd)));
    assert!(step.report.is_none() && matches!(step.request, NetRequest::Wait));
}

#[test]
fn new_request_drops_the_history_begun() {
    let mut t = at(Phase::Running);
    give(&mut t, NetEvent::Command(Some(ClientMsg::HistoryReq { conv_id: 9 })));
    give(&mut t, NetEvent::Written(Ok(())));
    frame(&mut t, history_msg(1));
    give(&mut t, NetEvent::Command(Some(ClientMsg::HistoryReq { conv_id: 8 })));
    give(&mut t, NetEvent::Written(Ok(())));
    frame(&mut t, history_msg(2));
    let step = frame(&mut t, NetEvent::Decoded(Some(ServerMsg::HistoryEnd)));
    match step.report {
        Some(UiEvent::HistoryBatch { conv_id, entries }) => {
            assert_eq!((conv_id, entries.len()), (8, 1));
            assert_eq!(entries[0].message_id, 2);
        }
        other => panic!("{:?}", other),
    }
}

#[test]
fn blank_lines_and_other_traffic() {
    let mut t = at(Phase::Running);
    let step = give(&mut t, NetEvent::Line(text(" \r\n")));
    assert!(step.report.is_none() && matches!(step.request, NetRequest::Wait));
    assert_eq!(t.phase, Phase::Running);

    let step = frame(&mut t, NetEvent::Decoded(Some(ServerMsg::UserNotFound)));
    assert!(matches!(step.report, Some(UiEvent::Server(ServerMsg::UserNotFound))));

    let cmd = ClientMsg::SearchUser { login: text("bob") };
    match give(&mut t, NetEvent::Command(Some(cmd))).request {
        NetRequest::Write(ClientMsg::SearchUser { login }) => assert_eq!(login, "bob"),
        other => panic!("{:?}", other),
    }
    assert!(t.history_conv.is_none());
}

fn line_of(stream: &[u8]) -> String {
    let mut reader = LineReader::new();
    for chunk in [stream, b""] {
        if let (_, LineStep::Line(line)) = reader.read_frame(100, chunk) {
            return line;
        }
    }
    panic!("no line")
}

#[test]
fn only_a_cut_line_closes() {
    for phase in [Phase::Handshake, Phase::Running] {
        let mut t = at(phase);
        let step = give(&mut t, NetEvent::Line(line_of(b"{\xff\n")));
        assert!(matches!(step.request, NetRequest::Decode(_)));

        let mut t = at(phase);
        let step = give(&mut t, NetEvent::Line(line_of(b"{\xff")));
        assert_over(&t, &step, "Connection closed");
    }
}
