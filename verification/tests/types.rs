use zeevum_client::types::{DeliveryStatus, LogColor};
use zeevum_client::ui::{append_log, log_entry_at, LogEntry};

#[test]
fn delivery_states_are_ordered_and_numbered() {
    assert_eq!(DeliveryStatus::default(), DeliveryStatus::Sending);
    assert!(DeliveryStatus::Sending < DeliveryStatus::Sent);
    assert!(DeliveryStatus::Sent < DeliveryStatus::Read);
    assert_eq!(DeliveryStatus::Sending.number(), 0);
    assert_eq!(DeliveryStatus::Sent.number(), 1);
    assert_eq!(DeliveryStatus::Read.number(), 2);
}

#[test]
fn colors_have_numbers() {
    let colors = [
        LogColor::White,
        LogColor::Green,
        LogColor::Red,
        LogColor::Yellow,
        LogColor::Blue,
        LogColor::Magenta,
    ];
    for (n, c) in colors.iter().enumerate() {
        assert_eq!(i32::from(*c), n as i32);
    }
}

#[test]
fn log_lines_carry_the_time() {
    let line = log_entry_at("07:05", "hello", LogColor::Red);
    assert_eq!(line.text, "[07:05] hello");
    assert_eq!(line.color, 2);
}

#[test]
fn log_grows_by_a_line_with_a_clock_time() {
    let mut log: Vec<LogEntry> = vec![log_entry_at("00:00", "old", LogColor::White)];
    append_log(&mut log, "новое", LogColor::Blue);
    assert_eq!(log.len(), 2);
    assert_eq!(log[0].text, "[00:00] old");
    assert_eq!(log[1].color, 4);
    let chars: Vec<char> = log[1].text.chars().collect();
    assert_eq!(chars[0], '[');
    assert_eq!(chars[3], ':');
    assert_eq!(chars[6], ']');
    let hour: u32 = log[1].text[1..3].parse().unwrap();
    let minute: u32 = log[1].text[4..6].parse().unwrap();
    assert!(hour < 24 && minute < 60);
    assert_eq!(&log[1].text[6..], "] новое");
}
