use game_server::chat::{remaining_minutes, handle_say, ChatLogEntry, ChatLogs, SayOutcome};
use game_server::cooldown::{ChatCooldown, ChatKind, CHAT_COOLDOWN_NANOS};
use game_server::text::WallClock;

fn names(list: &[&str]) -> Vec<String> {
    list.iter().map(|s| s.to_string()).collect()
}

#[test]
fn a_fresh_table_lets_every_channel_through() {
    let c = ChatCooldown::default();
    assert!(c.can_send(&ChatKind::General));
    assert!(c.can_send(&ChatKind::Whisper));
    assert_eq!(c.remaining(&ChatKind::Trade), 0);
}

#[test]
fn a_message_closes_only_its_channel_until_the_cooldown_passes() {
    let mut c = ChatCooldown::new();
    c.start_cooldown(ChatKind::Shout);
    assert!(!c.can_send(&ChatKind::Shout));
    assert_eq!(c.remaining(&ChatKind::Shout), CHAT_COOLDOWN_NANOS);
    assert!(c.can_send(&ChatKind::General));
    c.tick(150_000_000);
    assert!(!c.can_send(&ChatKind::Shout));
    assert_eq!(c.remaining(&ChatKind::Shout), 50_000_000);
    c.tick(50_000_000);
    assert!(c.can_send(&ChatKind::Shout));
    assert_eq!(c.remaining(&ChatKind::Shout), 0);
    c.tick(u64::MAX);
    assert!(c.can_send(&ChatKind::Shout));
}

#[test]
fn remaining_time_is_announced_in_whole_minutes_rounded_up() {
    assert_eq!(remaining_minutes(0), 0);
    assert_eq!(remaining_minutes(1), 1);
    assert_eq!(remaining_minutes(200_000_000), 1);
    assert_eq!(remaining_minutes(60_000_000_000), 1);
    assert_eq!(remaining_minutes(60_000_000_001), 2);
    assert_eq!(remaining_minutes(120_000_000_000), 2);
}

#[test]
fn dot_messages_are_custom_commands() {
    let mut cd = None;
    let out = handle_say(".ping", ChatKind::General, &None, &mut cd, &names(&[]));
    assert_eq!(out, SayOutcome::CustomCommand);
    assert!(cd.is_none());
}

#[test]
fn first_message_creates_the_cooldown_and_a_second_one_is_refused() {
    let mut cd = None;
    let out = handle_say("hello", ChatKind::General, &None, &mut cd, &names(&["Alice"]));
    assert_eq!(out, SayOutcome::Delivered { receivers: None, log_target: None });
    assert!(!cd.as_ref().unwrap().can_send(&ChatKind::General));
    let out = handle_say("hello again", ChatKind::General, &None, &mut cd, &names(&["Alice"]));
    assert_eq!(out, SayOutcome::OnCooldown { minutes: 1 });
    // another channel is open
    let out = handle_say("hi party", ChatKind::Party, &None, &mut cd, &names(&["Alice"]));
    assert_eq!(out, SayOutcome::Delivered { receivers: None, log_target: None });
}

#[test]
fn whispers_find_their_addressee_whatever_the_case() {
    let mut cd = Some(ChatCooldown::new());
    let online = names(&["Alice", "bob", "BOB", "Carol"]);
    let out = handle_say("psst", ChatKind::Whisper, &Some("Bob".to_string()), &mut cd, &online);
    assert_eq!(
        out,
        SayOutcome::Delivered { receivers: Some(vec![1, 2]), log_target: Some("Bob".to_string()) }
    );
}

#[test]
fn whispers_to_nobody_online_are_answered_offline() {
    let mut cd = Some(ChatCooldown::new());
    let out = handle_say("psst", ChatKind::Whisper, &Some("Dave".to_string()), &mut cd, &names(&["Alice"]));
    assert_eq!(out, SayOutcome::TargetOffline { target: "Dave".to_string() });
    // the cooldown started all the same
    assert!(!cd.unwrap().can_send(&ChatKind::Whisper));
}

fn clock() -> WallClock {
    WallClock { year: 2025, month: 3, day: 7, hour: 9, minute: 5, second: 3 }
}

#[test]
fn log_lines_name_time_channel_sender_and_addressee() {
    let e = ChatLogEntry {
        timestamp: clock(),
        chat_type: "Whisper".to_string(),
        sender: "Alice".to_string(),
        target: Some("Bob".to_string()),
        message: "hi".to_string(),
    };
    assert_eq!(e.format(), "[09:05:03] [Whisper] Alice -> Bob: hi\n");
    let e = ChatLogEntry { target: None, ..e };
    assert_eq!(e.format(), "[09:05:03] [Whisper] Alice: hi\n");
}

#[test]
fn the_buffer_flushes_every_line_in_order_then_empties() {
    let mut logs = ChatLogs::default();
    assert!(logs.pending_flush().is_none());
    logs.add_message("General".to_string(), "Alice".to_string(), None, "one".to_string());
    logs.add_message("Shout".to_string(), "Bob".to_string(), None, "two".to_string());
    let w = logs.pending_flush().unwrap();
    let lines: Vec<&str> = w.contents.lines().collect();
    assert_eq!(lines.len(), 2);
    assert!(lines[0].ends_with("] [General] Alice: one"));
    assert!(lines[1].ends_with("] [Shout] Bob: two"));
    assert!(w.file_name.starts_with("chat_"));
    assert!(w.file_name.ends_with(".log"));
    assert_eq!(w.file_name.len(), "chat_DD_MM_YYYY.log".len());
    logs.clear();
    assert!(logs.is_empty());
    assert!(logs.pending_flush().is_none());
}

#[test]
fn the_flush_timer_fires_every_interval() {
    let mut logs = ChatLogs::new();
    assert!(!logs.flush_due(60_000_000));
    assert!(logs.flush_due(60_000_000));
    assert!(!logs.flush_due(30_000_000));
    assert!(logs.flush_due(50_000_000));
}

#[test]
fn ticks_adding_up_to_the_cooldown_reopen_the_channel() {
    let mut c = ChatCooldown::new();
    c.start_cooldown(ChatKind::Shout);
    assert!(!c.can_send(&ChatKind::Shout));
    assert_eq!(c.remaining(&ChatKind::Shout), CHAT_COOLDOWN_NANOS);
    assert!(c.can_send(&ChatKind::Trade));
    for _ in 0..3 {
        c.tick(50_000_000);
    }
    assert!(!c.can_send(&ChatKind::Shout));
    assert_eq!(c.remaining(&ChatKind::Shout), 50_000_000);
    assert!(c.remaining(&ChatKind::Shout) <= CHAT_COOLDOWN_NANOS);
    c.tick(50_000_000);
    assert!(c.can_send(&ChatKind::Shout));
    assert_eq!(c.remaining(&ChatKind::Shout), 0);
}
