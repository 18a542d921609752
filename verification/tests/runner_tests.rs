use ralph::runner::{
    after_kill, after_spawn_failure, backoff, capture_failure, is_transient_failure,
    on_exit_event, on_stream_event, spawn_failure, stream_step, ExitEvent, ExitStep, RetryStep,
    SpawnFailureKind, StreamEvent, StreamStep, FIRST_BACKOFF_MILLIS, ITERATION_TIMEOUT_SECS,
    MAX_SPAWN_RETRIES,
};
use ralph::cursor::LineReading;
use ralph::types::{ActivityEntry, ActivityKind, ContextHealth, RalphError};

#[test]
fn transient_failures_are_told_by_kind_or_code() {
    assert!(is_transient_failure(SpawnFailureKind::WouldBlock, None));
    assert!(is_transient_failure(SpawnFailureKind::ResourceBusy, Some(1)));
    assert!(is_transient_failure(SpawnFailureKind::Interrupted, None));
    assert!(is_transient_failure(SpawnFailureKind::Other, Some(11)));
    assert!(is_transient_failure(SpawnFailureKind::Other, Some(24)));
    assert!(is_transient_failure(SpawnFailureKind::Other, Some(23)));
    assert!(!is_transient_failure(SpawnFailureKind::Other, Some(2)));
    assert!(!is_transient_failure(SpawnFailureKind::Other, Some(13)));
    assert!(!is_transient_failure(SpawnFailureKind::Other, None));
}

#[test]
fn backoff_starts_at_100_and_doubles() {
    assert_eq!((MAX_SPAWN_RETRIES, FIRST_BACKOFF_MILLIS, ITERATION_TIMEOUT_SECS), (3, 100, 600));
    assert_eq!(backoff(0), 100);
    assert_eq!(backoff(1), 200);
    assert_eq!(backoff(2), 400);
    assert_eq!(backoff(10), 102_400);
    assert_eq!(backoff(57), 100 * (1u64 << 57));
}

#[test]
fn three_retries_then_give_up() {
    let kind = SpawnFailureKind::WouldBlock;
    assert_eq!(after_spawn_failure(0, 3, kind, None), RetryStep::RetryAfter(100));
    assert_eq!(after_spawn_failure(1, 3, kind, None), RetryStep::RetryAfter(200));
    assert_eq!(after_spawn_failure(2, 3, kind, None), RetryStep::RetryAfter(400));
    assert_eq!(after_spawn_failure(3, 3, kind, None), RetryStep::GiveUp);
    assert_eq!(after_spawn_failure(0, 3, SpawnFailureKind::Other, Some(2)), RetryStep::GiveUp);
    assert_eq!(after_spawn_failure(0, 3, SpawnFailureKind::Other, Some(24)), RetryStep::RetryAfter(100));
    assert_eq!(after_spawn_failure(0, 0, kind, None), RetryStep::GiveUp);
    assert_eq!(after_spawn_failure(900, 3, kind, None), RetryStep::GiveUp);
}

#[test]
fn spawn_and_capture_errors_have_their_texts() {
    assert_eq!(
        spawn_failure("No such file or directory (os error 2)", "NotFound"),
        RalphError::CursorAgent(
            "Failed to spawn cursor-agent: No such file or directory (os error 2) (kind: NotFound)"
                .to_string()
        )
    );
    assert_eq!(capture_failure(), RalphError::CursorAgent("Failed to capture stdout".to_string()));
}

#[test]
fn stream_events_lead_to_their_steps() {
    assert_eq!(on_stream_event(StreamEvent::EndOfOutput), StreamStep::AwaitExit);
    assert_eq!(
        on_stream_event(StreamEvent::Shutdown),
        StreamStep::Kill(RalphError::CursorAgent("cursor-agent terminated due to shutdown".to_string()))
    );
    assert_eq!(
        on_stream_event(StreamEvent::TimedOut),
        StreamStep::Kill(RalphError::CursorAgent("cursor-agent timed out after 10 minutes".to_string()))
    );
    assert_eq!(on_stream_event(StreamEvent::Line("".to_string())), StreamStep::Skip);
    assert_eq!(on_stream_event(StreamEvent::Line("garbage".to_string())), StreamStep::Skip);
    assert_eq!(on_stream_event(StreamEvent::Line("{\"type\":\"other\"}".to_string())), StreamStep::Skip);
    match on_stream_event(StreamEvent::Line("{\"type\":\"error\",\"message\":\"m\"}".to_string())) {
        StreamStep::Deliver(entry) => {
            assert_eq!(entry.kind, ActivityKind::Error("m".to_string()));
            assert_eq!(entry.iteration, 0);
            assert_eq!(entry.health, ContextHealth::Healthy);
        }
        other => panic!("{:?}", other),
    }
}

#[test]
fn readings_lead_to_their_steps() {
    assert_eq!(stream_step(LineReading::Blank, 1), StreamStep::Skip);
    assert_eq!(stream_step(LineReading::Noise, 1), StreamStep::Skip);
    assert_eq!(stream_step(LineReading::Dropped, 1), StreamStep::Skip);
    assert_eq!(
        stream_step(LineReading::Activity(ActivityKind::Error("e".to_string())), 9),
        StreamStep::Deliver(ActivityEntry {
            timestamp: 9,
            iteration: 0,
            kind: ActivityKind::Error("e".to_string()),
            health: ContextHealth::Healthy,
        })
    );
}

#[test]
fn exit_events_lead_to_their_steps() {
    assert_eq!(
        on_exit_event(ExitEvent::Exited { success: true, status: "exit status: 0".to_string() }),
        ExitStep::Succeed
    );
    assert_eq!(
        on_exit_event(ExitEvent::Exited { success: false, status: "exit status: 1".to_string() }),
        ExitStep::Fail(RalphError::CursorAgent(
            "cursor-agent exited with status: exit status: 1".to_string()
        ))
    );
    assert_eq!(
        on_exit_event(ExitEvent::WaitFailed("gone".to_string())),
        ExitStep::Fail(RalphError::CursorAgent("Failed to wait for cursor-agent: gone".to_string()))
    );
    assert_eq!(
        on_exit_event(ExitEvent::TimedOut),
        ExitStep::Kill(RalphError::CursorAgent("cursor-agent timed out after 10 minutes".to_string()))
    );
    assert_eq!(
        on_exit_event(ExitEvent::Shutdown),
        ExitStep::Kill(RalphError::CursorAgent("cursor-agent terminated due to shutdown".to_string()))
    );
}

#[test]
fn a_failed_kill_is_reported_in_place_of_the_reason() {
    let reason = RalphError::CursorAgent("cursor-agent timed out after 10 minutes".to_string());
    assert_eq!(after_kill(reason.clone(), None), reason);
    assert_eq!(
        after_kill(reason, Some("no such process".to_string())),
        RalphError::CursorAgent("Failed to kill cursor-agent process: no such process".to_string())
    );
}
