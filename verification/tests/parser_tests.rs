use ralph::parser::StreamParser;
use ralph::types::{ActivityKind, ContextHealth, Signal, TokenUsage};

#[test]
fn test_token_tracking() {
    let mut parser = StreamParser::new(0, TokenUsage::default(), 70_000, 80_000);

    let (_entry, signal) = parser.parse_activity(ActivityKind::Read {
        path: "test.rs".to_string(),
        lines: 100,
        bytes: 5000,
    });

    assert_eq!(parser.token_usage().read, 5000);
    assert_eq!(parser.token_usage().total, 5000);
    assert!(signal.is_none());
}

#[test]
fn test_warn_threshold() {
    let mut parser = StreamParser::new(0, TokenUsage::default(), 70_000, 80_000);

    let (_, signal) = parser.parse_activity(ActivityKind::Read {
        path: "test.rs".to_string(),
        lines: 1000,
        bytes: 70_000,
    });

    assert!(matches!(signal, Some(Signal::Warn)));
}

#[test]
fn test_rotate_threshold() {
    let mut parser = StreamParser::new(0, TokenUsage::default(), 70_000, 80_000);

    let (_, signal) = parser.parse_activity(ActivityKind::Read {
        path: "test.rs".to_string(),
        lines: 1000,
        bytes: 80_000,
    });

    assert!(matches!(signal, Some(Signal::Rotate)));
}

#[test]
fn test_gutter_detection() {
    let mut parser = StreamParser::new(0, TokenUsage::default(), 70_000, 80_000);

    // Fail the same command 3 times
    for _ in 0..3 {
        let (_, signal) = parser.parse_activity(ActivityKind::Shell {
            command: "npm test".to_string(),
            exit_code: 1,
        });

        if signal.is_some() {
            assert!(matches!(signal, Some(Signal::Gutter(_))));
            break;
        }
    }
}

fn shell(command: &str, exit_code: i32) -> ActivityKind {
    ActivityKind::Shell { command: command.to_string(), exit_code }
}

fn write(path: &str, bytes: u32) -> ActivityKind {
    ActivityKind::Write { path: path.to_string(), lines: 1, bytes }
}

#[test]
fn third_failure_in_a_row_raises_gutter_with_exact_text() {
    let mut parser = StreamParser::new(4, TokenUsage::default(), 70_000, 80_000);
    let (e1, s1) = parser.parse_activity_at(shell("npm test", 1), 10);
    let (_, s2) = parser.parse_activity_at(shell("npm test", 2), 20);
    let (e3, s3) = parser.parse_activity_at(shell("npm test", 1), 30);
    assert_eq!(s1, None);
    assert_eq!(s2, None);
    assert_eq!(s3, Some(Signal::Gutter("Command failed 3 times: npm test".to_string())));
    assert_eq!(e1.iteration, 4);
    assert_eq!(e1.timestamp, 10);
    assert_eq!(e3.kind, shell("npm test", 1));
    assert_eq!(parser.token_usage().shell, 300);
    assert_eq!(parser.token_usage().total, 300);
}

#[test]
fn failure_count_is_not_reset_after_the_signal() {
    let mut parser = StreamParser::new(0, TokenUsage::default(), 70_000, 80_000);
    for _ in 0..3 {
        parser.parse_activity_at(shell("make", 2), 1);
    }
    let (_, s4) = parser.parse_activity_at(shell("make", 2), 1);
    assert_eq!(s4, Some(Signal::Gutter("Command failed 4 times: make".to_string())));
}

#[test]
fn successful_and_other_commands_do_not_count_as_failures() {
    let mut parser = StreamParser::new(0, TokenUsage::default(), 70_000, 80_000);
    assert_eq!(parser.parse_activity_at(shell("a", 1), 1).1, None);
    assert_eq!(parser.parse_activity_at(shell("a", 0), 1).1, None);
    assert_eq!(parser.parse_activity_at(shell("b", 1), 1).1, None);
    assert_eq!(parser.parse_activity_at(shell("a", 1), 1).1, None);
    assert_eq!(parser.parse_activity_at(shell("b", 1), 1).1, None);
    assert_eq!(
        parser.parse_activity_at(shell("a", -1), 1).1,
        Some(Signal::Gutter("Command failed 3 times: a".to_string()))
    );
}

#[test]
fn fifth_write_within_ten_minutes_raises_thrashing() {
    let mut parser = StreamParser::new(0, TokenUsage::default(), 70_000, 80_000);
    let start: u64 = 1_700_000_000_000;
    for i in 0..4u64 {
        let (_, signal) = parser.parse_activity_at(write("src/main.rs", 10), start + i * 100_000);
        assert_eq!(signal, None);
    }
    let (_, fifth) = parser.parse_activity_at(write("src/main.rs", 10), start + 599_999);
    assert_eq!(
        fifth,
        Some(Signal::Gutter(
            "File thrashing detected: src/main.rs (5 writes in 10min)".to_string()
        ))
    );
}

#[test]
fn five_writes_spread_beyond_ten_minutes_do_not_raise_thrashing() {
    let mut parser = StreamParser::new(0, TokenUsage::default(), 70_000, 80_000);
    let start: u64 = 1_700_000_000_000;
    for i in 0..4u64 {
        let (_, signal) = parser.parse_activity_at(write("src/main.rs", 10), start + i * 100_000);
        assert_eq!(signal, None);
    }
    let (_, fifth) = parser.parse_activity_at(write("src/main.rs", 10), start + 600_000);
    assert_eq!(fifth, None);
    let (_, sixth) = parser.parse_activity_at(write("src/main.rs", 10), start + 600_001);
    assert_eq!(
        sixth,
        Some(Signal::Gutter(
            "File thrashing detected: src/main.rs (5 writes in 10min)".to_string()
        ))
    );
}

#[test]
fn writes_to_other_paths_do_not_add_up() {
    let mut parser = StreamParser::new(0, TokenUsage::default(), 70_000, 80_000);
    for i in 0..4u64 {
        assert_eq!(parser.parse_activity_at(write("a.rs", 1), i).1, None);
        assert_eq!(parser.parse_activity_at(write("b.rs", 1), i).1, None);
    }
    assert!(matches!(parser.parse_activity_at(write("b.rs", 1), 9).1, Some(Signal::Gutter(_))));
}

#[test]
fn gutter_takes_priority_over_rotation() {
    let mut parser = StreamParser::new(0, TokenUsage::default(), 100, 200);
    parser.parse_activity_at(shell("x", 1), 1);
    let (_, second) = parser.parse_activity_at(shell("x", 1), 1);
    assert_eq!(second, Some(Signal::Rotate));
    let (entry, third) = parser.parse_activity_at(shell("x", 1), 1);
    assert_eq!(third, Some(Signal::Gutter("Command failed 3 times: x".to_string())));
    assert_eq!(entry.health, ContextHealth::Critical);
}

#[test]
fn total_is_the_sum_of_reads_writes_and_shell_estimates() {
    let mut parser = StreamParser::new(0, TokenUsage::default(), 70_000, 80_000);
    parser.parse_activity_at(
        ActivityKind::Read { path: "a".to_string(), lines: 1, bytes: 1200 },
        1,
    );
    parser.parse_activity_at(write("b", 345), 2);
    parser.parse_activity_at(shell("ls", 0), 3);
    parser.parse_activity_at(shell("ls", 0), 4);
    parser.parse_activity_at(ActivityKind::Error("boom".to_string()), 5);
    parser.parse_activity_at(ActivityKind::Signal(Signal::Complete), 6);
    let usage = *parser.token_usage();
    assert_eq!(usage, TokenUsage { total: 1745, read: 1200, write: 345, assistant: 0, shell: 200 });
    assert_eq!(usage.total, usage.read + usage.write + usage.shell);
}

#[test]
fn reset_tokens_zeroes_counters_and_keeps_gutter_records() {
    let mut parser = StreamParser::new(0, TokenUsage::default(), 70_000, 80_000);
    parser.parse_activity_at(shell("t", 1), 1);
    parser.parse_activity_at(shell("t", 1), 1);
    parser.reset_tokens();
    assert_eq!(*parser.token_usage(), TokenUsage::default());
    assert!(matches!(parser.parse_activity_at(shell("t", 1), 1).1, Some(Signal::Gutter(_))));
    assert_eq!(parser.token_usage().total, 100);
}

#[test]
fn gutter_counts_can_be_set() {
    let mut parser = StreamParser::new(0, TokenUsage::default(), 70_000, 80_000);
    parser.set_gutter_counts(1, 2);
    assert_eq!(
        parser.parse_activity_at(shell("t", 1), 1).1,
        Some(Signal::Gutter("Command failed 1 times: t".to_string()))
    );
    assert_eq!(parser.parse_activity_at(write("f", 0), 1).1, None);
    assert_eq!(
        parser.parse_activity_at(write("f", 0), 2).1,
        Some(Signal::Gutter("File thrashing detected: f (2 writes in 10min)".to_string()))
    );
}

#[test]
fn accepts_says_when_a_counter_would_overflow() {
    let nearly_full = TokenUsage { total: u32::MAX - 50, read: 0, write: 0, assistant: 0, shell: 0 };
    let parser = StreamParser::new(0, nearly_full, 70_000, 80_000);
    assert!(parser.accepts(&write("f", 50)));
    assert!(!parser.accepts(&write("f", 51)));
    assert!(!parser.accepts(&shell("t", 0)));
    assert!(parser.accepts(&ActivityKind::Error("e".to_string())));
}

#[test]
fn health_of_entry_follows_the_updated_total() {
    let mut parser = StreamParser::new(0, TokenUsage::default(), 70_000, 80_000);
    let (e1, _) = parser.parse_activity_at(write("f", 69_999), 1);
    assert_eq!(e1.health, ContextHealth::Healthy);
    let (e2, s2) = parser.parse_activity_at(write("g", 1), 1);
    assert_eq!(e2.health, ContextHealth::Warning);
    assert_eq!(s2, Some(Signal::Warn));
    let (e3, s3) = parser.parse_activity_at(write("h", 10_000), 1);
    assert_eq!(e3.health, ContextHealth::Critical);
    assert_eq!(s3, Some(Signal::Rotate));
}
