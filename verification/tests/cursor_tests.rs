use ralph::cursor::{
    agent_program, classify, read_decoded_line, read_line, AgentRecord, CursorRunner, LineReading,
};
use ralph::types::{ActivityKind, ContextHealth};
use ralph::SessionConfig;

#[test]
fn test_cursor_runner_creation() {
    let runner = CursorRunner::new(
        "/tmp/test-project".to_string(),
        "opus-4.5-thinking".to_string(),
    );

    assert_eq!(runner.project_path(), "/tmp/test-project");
    assert_eq!(runner.model(), "opus-4.5-thinking");
}

#[test]
fn test_execution_model_is_used_for_execution() {
    let config = SessionConfig {
        prd_model: "sonnet-4.5-thinking".to_string(),
        execution_model: "opus-4.5-thinking".to_string(),
        max_iterations: 20,
        warn_threshold: 70_000,
        rotate_threshold: 80_000,
        branch_name: None,
        open_pr: false,
    };

    assert_eq!(config.execution_model, "opus-4.5-thinking");
    assert_ne!(config.execution_model, config.prd_model);

    let runner = CursorRunner::new(
        "/tmp/test".to_string(),
        config.execution_model.clone(),
    );
    assert_eq!(runner.model(), "opus-4.5-thinking");
}

fn empty() -> AgentRecord {
    AgentRecord {
        kind: None,
        path: None,
        lines: None,
        bytes: None,
        command: None,
        exit_code: None,
        message: None,
    }
}

#[test]
fn agent_is_started_with_its_flags() {
    let runner = CursorRunner::new("/p".to_string(), "auto".to_string());
    assert_eq!(agent_program(), "cursor-agent");
    assert_eq!(
        runner.arguments("do the thing"),
        vec!["-p", "--output-format", "stream-json", "--force", "--model", "auto", "do the thing"]
    );
}

#[test]
fn records_with_all_members_become_activities() {
    let read = AgentRecord {
        kind: Some("read".to_string()),
        path: Some("a.rs".to_string()),
        lines: Some(10),
        bytes: Some(200),
        ..empty()
    };
    assert_eq!(
        classify(&read),
        Some(ActivityKind::Read { path: "a.rs".to_string(), lines: 10, bytes: 200 })
    );
    let write = AgentRecord { kind: Some("write".to_string()), ..read.clone_for_test() };
    assert_eq!(
        classify(&write),
        Some(ActivityKind::Write { path: "a.rs".to_string(), lines: 10, bytes: 200 })
    );
    let shell = AgentRecord {
        kind: Some("shell".to_string()),
        command: Some("ls".to_string()),
        exit_code: Some(2),
        ..empty()
    };
    assert_eq!(classify(&shell), Some(ActivityKind::Shell { command: "ls".to_string(), exit_code: 2 }));
    let error = AgentRecord {
        kind: Some("error".to_string()),
        message: Some("boom".to_string()),
        ..empty()
    };
    assert_eq!(classify(&error), Some(ActivityKind::Error("boom".to_string())));
}

trait CloneForTest {
    fn clone_for_test(&self) -> AgentRecord;
}

impl CloneForTest for AgentRecord {
    fn clone_for_test(&self) -> AgentRecord {
        AgentRecord {
            kind: self.kind.clone(),
            path: self.path.clone(),
            lines: self.lines,
            bytes: self.bytes,
            command: self.command.clone(),
            exit_code: self.exit_code,
            message: self.message.clone(),
        }
    }
}

#[test]
fn records_that_miss_a_member_or_have_another_type_are_dropped() {
    assert_eq!(classify(&empty()), None);
    assert_eq!(classify(&AgentRecord { kind: Some("read".to_string()), ..empty() }), None);
    assert_eq!(
        classify(&AgentRecord {
            kind: Some("read".to_string()),
            path: Some("a".to_string()),
            lines: Some(1),
            ..empty()
        }),
        None
    );
    assert_eq!(
        classify(&AgentRecord {
            kind: Some("shell".to_string()),
            command: Some("ls".to_string()),
            ..empty()
        }),
        None
    );
    assert_eq!(classify(&AgentRecord { kind: Some("error".to_string()), ..empty() }), None);
    assert_eq!(
        classify(&AgentRecord {
            kind: Some("thinking".to_string()),
            path: Some("a".to_string()),
            lines: Some(1),
            bytes: Some(1),
            command: Some("c".to_string()),
            exit_code: Some(0),
            message: Some("m".to_string()),
        }),
        None
    );
    assert_eq!(
        classify(&AgentRecord {
            kind: Some("Read".to_string()),
            path: Some("a".to_string()),
            lines: Some(1),
            bytes: Some(1),
            ..empty()
        }),
        None
    );
}

#[test]
fn counts_and_exit_codes_keep_their_low_32_bits() {
    let big = AgentRecord {
        kind: Some("write".to_string()),
        path: Some("a".to_string()),
        lines: Some(4_294_967_296 + 7),
        bytes: Some(u64::MAX),
        ..empty()
    };
    assert_eq!(
        classify(&big),
        Some(ActivityKind::Write {
            path: "a".to_string(),
            lines: (4_294_967_296u64 + 7) as u32,
            bytes: u64::MAX as u32,
        })
    );
    for code in [0i64, 1, -1, 255, 2_147_483_647, 2_147_483_648, -2_147_483_648, -2_147_483_649, i64::MAX, i64::MIN, 4_294_967_296, -4_294_967_297] {
        let shell = AgentRecord {
            kind: Some("shell".to_string()),
            command: Some("c".to_string()),
            exit_code: Some(code),
            ..empty()
        };
        assert_eq!(
            classify(&shell),
            Some(ActivityKind::Shell { command: "c".to_string(), exit_code: code as i32 }),
            "{}",
            code
        );
    }
}

#[test]
fn lines_of_agent_output_are_read_as_json() {
    assert_eq!(read_line(""), LineReading::Blank);
    assert_eq!(read_line("   \t"), LineReading::Blank);
    assert_eq!(read_line("not json"), LineReading::Noise);
    assert_eq!(read_line("{\"type\":\"read\""), LineReading::Noise);
    assert_eq!(read_line("[1,2]"), LineReading::Dropped);
    assert_eq!(read_line("{\"type\":\"thinking\",\"text\":\"hm\"}"), LineReading::Dropped);
    assert_eq!(read_line("{\"type\":7}"), LineReading::Dropped);
    assert_eq!(
        read_line("{\"type\":\"read\",\"path\":\"src/a.rs\",\"lines\":12,\"bytes\":340}"),
        LineReading::Activity(ActivityKind::Read { path: "src/a.rs".to_string(), lines: 12, bytes: 340 })
    );
    assert_eq!(
        read_line("  {\"type\":\"write\",\"path\":\"b\",\"lines\":1,\"bytes\":2, \"extra\": null}  "),
        LineReading::Activity(ActivityKind::Write { path: "b".to_string(), lines: 1, bytes: 2 })
    );
    assert_eq!(
        read_line("{\"type\":\"shell\",\"command\":\"npm test\",\"exit_code\":-1}"),
        LineReading::Activity(ActivityKind::Shell { command: "npm test".to_string(), exit_code: -1 })
    );
    assert_eq!(
        read_line("{\"type\":\"error\",\"message\":\"quota \\\"exceeded\\\"\"}"),
        LineReading::Activity(ActivityKind::Error("quota \"exceeded\"".to_string()))
    );
    // a count that is negative, a fraction or a string is no count
    assert_eq!(
        read_line("{\"type\":\"read\",\"path\":\"a\",\"lines\":-1,\"bytes\":2}"),
        LineReading::Dropped
    );
    assert_eq!(
        read_line("{\"type\":\"read\",\"path\":\"a\",\"lines\":1.5,\"bytes\":2}"),
        LineReading::Dropped
    );
    assert_eq!(
        read_line("{\"type\":\"read\",\"path\":\"a\",\"lines\":\"1\",\"bytes\":2}"),
        LineReading::Dropped
    );
    assert_eq!(
        read_line("{\"type\":\"shell\",\"command\":\"x\",\"exit_code\":1.0}"),
        LineReading::Dropped
    );
}

#[test]
fn a_blank_line_is_blank_whatever_was_decoded() {
    let record = AgentRecord { kind: Some("error".to_string()), message: Some("m".to_string()), ..empty() };
    assert_eq!(read_decoded_line(" ", Some(record)), LineReading::Blank);
    let record = AgentRecord { kind: Some("error".to_string()), message: Some("m".to_string()), ..empty() };
    assert_eq!(
        read_decoded_line("x", Some(record)),
        LineReading::Activity(ActivityKind::Error("m".to_string()))
    );
    assert_eq!(read_decoded_line("x", None), LineReading::Noise);
    assert_eq!(read_decoded_line("x", Some(empty())), LineReading::Dropped);
}

#[test]
fn entries_start_with_iteration_zero_and_healthy() {
    let runner = CursorRunner::new("/p".to_string(), "m".to_string());
    let record = AgentRecord { kind: Some("error".to_string()), message: Some("m".to_string()), ..empty() };
    let entry = runner.parse_activity_at(&record, 77).unwrap();
    assert_eq!(entry.timestamp, 77);
    assert_eq!(entry.iteration, 0);
    assert_eq!(entry.health, ContextHealth::Healthy);
    assert_eq!(entry.kind, ActivityKind::Error("m".to_string()));
    assert_eq!(runner.parse_activity_at(&empty(), 77), None);
    let now = runner.parse_activity(&record).unwrap();
    assert_eq!(now.iteration, 0);
    assert_eq!(now.kind, ActivityKind::Error("m".to_string()));
    assert_eq!(runner.parse_activity(&empty()), None);
}
