use crate::clock::now_millis;
use crate::cursor::{decoded_line, read_line, reading_of, LineReading, ReadingView};
use crate::types::{ActivityEntry, ContextHealth, EntryView, ErrorView, RalphError};
use vstd::arithmetic::power2::{lemma_pow2_strictly_increases, lemma_pow2_unfold, pow2};
use vstd::prelude::*;
use vstd::string::StringExecFns;

verus! {

/// How often a failed start of the agent is tried again.
pub const MAX_SPAWN_RETRIES: u32 = 3;

/// The wait before the first new try, in milliseconds.
pub const FIRST_BACKOFF_MILLIS: u64 = 100;

/// How long one run of the agent may take from its start to its exit, in
/// seconds, whether the agent is silent, still prints, or holds its output
/// open.
pub const ITERATION_TIMEOUT_SECS: u64 = 600;

/// The kinds of failure to start a process that are told apart.
#[derive(Debug, Clone, Copy, PartialEq, Eq, Structural)]
pub enum SpawnFailureKind {
    WouldBlock,
    ResourceBusy,
    Interrupted,
    Other,
}

/// Whether a failure to start a process may pass by itself: it is of a kind
/// that says so, or the system's error code says that a resource is
/// temporarily unavailable (11), that the process has too many files open
/// (24) or that the system's file table is full (23).
pub open spec fn is_transient(kind: SpawnFailureKind, os_code: Option<i32>) -> bool {
    ||| kind != SpawnFailureKind::Other
    ||| os_code == Some(11i32)
    ||| os_code == Some(24i32)
    ||| os_code == Some(23i32)
}

/// Whether a failure to start a process may pass by itself.
pub fn is_transient_failure(kind: SpawnFailureKind, os_code: Option<i32>) -> (transient: bool)
    ensures
        transient == is_transient(kind, os_code),
{
    match kind {
        SpawnFailureKind::Other => match os_code {
            Some(code) => code == 11 || code == 24 || code == 23,
            None => false,
        },
        _ => true,
    }
}

/// The wait after the failed try number `attempt`, counted from 0, in
/// milliseconds: 100 at first, doubled with every try.
pub open spec fn backoff_millis(attempt: nat) -> nat {
    FIRST_BACKOFF_MILLIS as nat * pow2(attempt)
}

/// What to do after a failed start of the agent.
#[derive(Debug, Clone, Copy, PartialEq, Eq, Structural)]
pub enum RetryStep {
    /// Report the failure.
    GiveUp,
    /// Wait this many milliseconds, then try again.
    RetryAfter(u64),
}

/// What to do after the try number `attempt`, counted from 0, has failed:
/// give up on a failure that will not pass or once `max_retries` new tries
/// are used up, else wait and try again.
pub open spec fn retry_step(attempt: u32, max_retries: u32, transient: bool) -> RetryStep {
    if !transient || attempt >= max_retries {
        RetryStep::GiveUp
    } else {
        RetryStep::RetryAfter(backoff_millis(attempt as nat) as u64)
    }
}

/// The wait after the failed try number `attempt`, in milliseconds.
pub fn backoff(attempt: u32) -> (millis: u64)
    requires
        backoff_millis(attempt as nat) <= u64::MAX,
    ensures
        millis == backoff_millis(attempt as nat),
{
    let mut millis: u64 = FIRST_BACKOFF_MILLIS;
    let mut done: u32 = 0;
    proof {
        lemma_pow2_unfold(1);
        assert(pow2(0) == 1) by {
            vstd::arithmetic::power2::lemma2_to64();
        }
    }
    while done < attempt
        invariant
            done <= attempt,
            millis == backoff_millis(done as nat),
            backoff_millis(attempt as nat) <= u64::MAX,
        decreases attempt - done,
    {
        proof {
            lemma_pow2_unfold((done + 1) as nat);
            if done + 1 < attempt {
                lemma_pow2_strictly_increases((done + 1) as nat, attempt as nat);
            }
            assert(backoff_millis((done + 1) as nat) <= backoff_millis(attempt as nat))
                by (nonlinear_arith)
                requires
                    pow2((done + 1) as nat) <= pow2(attempt as nat),
            ;
            assert(backoff_millis((done + 1) as nat) == 2 * backoff_millis(done as nat))
                by (nonlinear_arith)
                requires
                    pow2((done + 1) as nat) == 2 * pow2(done as nat),
            ;
        }
        millis = millis * 2;
        done = done + 1;
    }
    millis
}

/// Decides what to do after the try number `attempt`, counted from 0, to
/// start the agent has failed.
pub fn after_spawn_failure(
    attempt: u32,
    max_retries: u32,
    kind: SpawnFailureKind,
    os_code: Option<i32>,
) -> (step: RetryStep)
    requires
        is_transient(kind, os_code) && attempt < max_retries ==> backoff_millis(attempt as nat)
            <= u64::MAX,
    ensures
        step == retry_step(attempt, max_retries, is_transient(kind, os_code)),
{
    if !is_transient_failure(kind, os_code) || attempt >= max_retries {
        RetryStep::GiveUp
    } else {
        RetryStep::RetryAfter(backoff(attempt))
    }
}

/// With the usual three new tries the waits are 100, 200 and 400
/// milliseconds, and the fourth failure is reported.
pub proof fn usual_backoff()
    ensures
        retry_step(0, MAX_SPAWN_RETRIES, true) == RetryStep::RetryAfter(100),
        retry_step(1, MAX_SPAWN_RETRIES, true) == RetryStep::RetryAfter(200),
        retry_step(2, MAX_SPAWN_RETRIES, true) == RetryStep::RetryAfter(400),
        retry_step(3, MAX_SPAWN_RETRIES, true) == RetryStep::GiveUp,
        forall|attempt: u32| retry_step(attempt, MAX_SPAWN_RETRIES, false) == RetryStep::GiveUp,
{
    vstd::arithmetic::power2::lemma2_to64();
}

/// The error for an agent that could not be started, from the description
/// of the failure and the name of its kind.
pub open spec fn spawn_failure_text(error: Seq<char>, kind: Seq<char>) -> Seq<char> {
    "Failed to spawn cursor-agent: "@ + error + " (kind: "@ + kind + ")"@
}

/// The error for an agent that could not be started.
pub fn spawn_failure(error: &str, kind: &str) -> (failure: RalphError)
    ensures
        failure@ == ErrorView::CursorAgent(spawn_failure_text(error@, kind@)),
{
    let mut text = String::from_str("Failed to spawn cursor-agent: ");
    text.append(error);
    text.append(" (kind: ");
    text.append(kind);
    text.append(")");
    RalphError::CursorAgent(text)
}

/// The error for an agent whose output cannot be read.
pub fn capture_failure() -> (failure: RalphError)
    ensures
        failure@ == ErrorView::CursorAgent("Failed to capture stdout"@),
{
    RalphError::CursorAgent(String::from_str("Failed to capture stdout"))
}

/// What happens while the agent's output is read.
#[derive(Debug, PartialEq, Eq)]
pub enum StreamEvent {
    /// The next line of output.
    Line(String),
    /// The output has ended, or reading it has failed.
    EndOfOutput,
    /// The time allowed for the run has passed.
    TimedOut,
    /// The program is shutting down.
    Shutdown,
}

/// What to do about an event while the agent's output is read.
#[derive(Debug, PartialEq, Eq)]
pub enum StreamStep {
    /// Nothing: read on.
    Skip,
    /// Hand the entry to whoever follows the activity, then read on.
    Deliver(ActivityEntry),
    /// Stop reading and wait for the agent to exit.
    AwaitExit,
    /// Kill the agent, then fail with this error.
    Kill(RalphError),
}

/// A stream step with its texts as character sequences.
pub enum StreamStepView {
    Skip,
    Deliver(EntryView),
    AwaitExit,
    Kill(ErrorView),
}

impl View for StreamStep {
    type V = StreamStepView;

    open spec fn view(&self) -> StreamStepView {
        match *self {
            StreamStep::Skip => StreamStepView::Skip,
            StreamStep::Deliver(entry) => StreamStepView::Deliver(entry@),
            StreamStep::AwaitExit => StreamStepView::AwaitExit,
            StreamStep::Kill(error) => StreamStepView::Kill(error@),
        }
    }
}

/// What to do about a line that was judged at time `now`: an activity is
/// delivered, with iteration number 0 and health `Healthy` until someone who
/// knows them sets them; every other line is skipped.
pub open spec fn step_for_reading(reading: ReadingView, now: u64) -> StreamStepView {
    match reading {
        ReadingView::Activity(kind) => StreamStepView::Deliver(
            EntryView { timestamp: now, iteration: 0, kind, health: ContextHealth::Healthy },
        ),
        _ => StreamStepView::Skip,
    }
}

/// The error for an agent that is killed because the program shuts down.
pub open spec fn shutdown_error() -> ErrorView {
    ErrorView::CursorAgent("cursor-agent terminated due to shutdown"@)
}

/// The error for an agent that is killed because it took too long.
pub open spec fn timeout_error() -> ErrorView {
    ErrorView::CursorAgent("cursor-agent timed out after 10 minutes"@)
}

/// Decides what to do about a line that was judged at time `now`.
pub fn stream_step(reading: LineReading, now: u64) -> (step: StreamStep)
    ensures
        step@ == step_for_reading(reading@, now),
{
    match reading {
        LineReading::Activity(kind) => StreamStep::Deliver(
            ActivityEntry { timestamp: now, iteration: 0, kind, health: ContextHealth::Healthy },
        ),
        _ => StreamStep::Skip,
    }
}

/// Decides what to do about an event while the agent's output is read. A
/// line is judged and, where it is an activity, delivered with the time the
/// system clock shows; the end of the output leads to waiting for the agent;
/// when the time allowed has passed, and on a shutdown, the agent is killed.
pub fn on_stream_event(event: StreamEvent) -> (step: StreamStep)
    ensures
        match event {
            StreamEvent::Line(line) => match reading_of(line@, decoded_line(line@)) {
                ReadingView::Activity(kind) => step@ matches StreamStepView::Deliver(entry)
                    && entry == (EntryView {
                    timestamp: entry.timestamp,
                    iteration: 0,
                    kind,
                    health: ContextHealth::Healthy,
                }),
                _ => step@ == StreamStepView::Skip,
            },
            StreamEvent::EndOfOutput => step@ == StreamStepView::AwaitExit,
            StreamEvent::TimedOut => step@ == StreamStepView::Kill(timeout_error()),
            StreamEvent::Shutdown => step@ == StreamStepView::Kill(shutdown_error()),
        },
{
    match event {
        StreamEvent::Line(line) => {
            let reading = read_line(line.as_str());
            let now = now_millis();
            stream_step(reading, now)
        },
        StreamEvent::EndOfOutput => StreamStep::AwaitExit,
        StreamEvent::TimedOut => StreamStep::Kill(
            RalphError::CursorAgent(String::from_str("cursor-agent timed out after 10 minutes")),
        ),
        StreamEvent::Shutdown => StreamStep::Kill(
            RalphError::CursorAgent(String::from_str("cursor-agent terminated due to shutdown")),
        ),
    }
}

/// What happens while the agent is waited for.
#[derive(Debug, PartialEq, Eq)]
pub enum ExitEvent {
    /// The agent has exited; `status` describes how.
    Exited { success: bool, status: String },
    /// Waiting has failed, with this description.
    WaitFailed(String),
    /// The time allowed for the run has passed.
    TimedOut,
    /// The program is shutting down.
    Shutdown,
}

/// An exit event with its texts as character sequences.
pub enum ExitEventView {
    Exited { success: bool, status: Seq<char> },
    WaitFailed(Seq<char>),
    TimedOut,
    Shutdown,
}

impl View for ExitEvent {
    type V = ExitEventView;

    open spec fn view(&self) -> ExitEventView {
        match *self {
            ExitEvent::Exited { success, status } => ExitEventView::Exited {
                success,
                status: status@,
            },
            ExitEvent::WaitFailed(detail) => ExitEventView::WaitFailed(detail@),
            ExitEvent::TimedOut => ExitEventView::TimedOut,
            ExitEvent::Shutdown => ExitEventView::Shutdown,
        }
    }
}

/// What to do about an event while the agent is waited for.
#[derive(Debug, PartialEq, Eq)]
pub enum ExitStep {
    /// The iteration has succeeded.
    Succeed,
    /// The iteration has failed with this error.
    Fail(RalphError),
    /// Kill the agent, then fail with this error.
    Kill(RalphError),
}

/// An exit step with its texts as character sequences.
pub enum ExitStepView {
    Succeed,
    Fail(ErrorView),
    Kill(ErrorView),
}

impl View for ExitStep {
    type V = ExitStepView;

    open spec fn view(&self) -> ExitStepView {
        match *self {
            ExitStep::Succeed => ExitStepView::Succeed,
            ExitStep::Fail(error) => ExitStepView::Fail(error@),
            ExitStep::Kill(error) => ExitStepView::Kill(error@),
        }
    }
}

/// What to do about an event while the agent is waited for: a clean exit is
/// success, any other exit and a failed wait are failures, and on a timeout
/// or a shutdown the agent is killed.
pub open spec fn step_for_exit(event: ExitEventView) -> ExitStepView {
    match event {
        ExitEventView::Exited { success, status } => {
            if success {
                ExitStepView::Succeed
            } else {
                ExitStepView::Fail(
                    ErrorView::CursorAgent("cursor-agent exited with status: "@ + status),
                )
            }
        },
        ExitEventView::WaitFailed(detail) => ExitStepView::Fail(
            ErrorView::CursorAgent("Failed to wait for cursor-agent: "@ + detail),
        ),
        ExitEventView::TimedOut => ExitStepView::Kill(timeout_error()),
        ExitEventView::Shutdown => ExitStepView::Kill(shutdown_error()),
    }
}

/// Decides what to do about an event while the agent is waited for.
pub fn on_exit_event(event: ExitEvent) -> (step: ExitStep)
    ensures
        step@ == step_for_exit(event@),
{
    match event {
        ExitEvent::Exited { success, status } => {
            if success {
                ExitStep::Succeed
            } else {
                let mut text = String::from_str("cursor-agent exited with status: ");
                text.append(status.as_str());
                ExitStep::Fail(RalphError::CursorAgent(text))
            }
        },
        ExitEvent::WaitFailed(detail) => {
            let mut text = String::from_str("Failed to wait for cursor-agent: ");
            text.append(detail.as_str());
            ExitStep::Fail(RalphError::CursorAgent(text))
        },
        ExitEvent::TimedOut => ExitStep::Kill(
            RalphError::CursorAgent(String::from_str("cursor-agent timed out after 10 minutes")),
        ),
        ExitEvent::Shutdown => ExitStep::Kill(
            RalphError::CursorAgent(String::from_str("cursor-agent terminated due to shutdown")),
        ),
    }
}

/// The error that an iteration fails with after the agent was to be killed
/// for `reason`: the reason where the kill worked, else what went wrong with
/// the kill.
pub open spec fn error_after_kill(reason: ErrorView, kill_failure: Option<Seq<char>>)
    -> ErrorView {
    match kill_failure {
        None => reason,
        Some(detail) => ErrorView::CursorAgent("Failed to kill cursor-agent process: "@ + detail),
    }
}

/// The error that an iteration fails with after the agent was to be killed.
pub fn after_kill(reason: RalphError, kill_failure: Option<String>) -> (error: RalphError)
    ensures
        error@ == error_after_kill(
            reason@,
            match kill_failure {
                Some(detail) => Some(detail@),
                None => None,
            },
        ),
{
    match kill_failure {
        None => reason,
        Some(detail) => {
            let mut text = String::from_str("Failed to kill cursor-agent process: ");
            text.append(detail.as_str());
            RalphError::CursorAgent(text)
        },
    }
}

} // verus!
