use crate::iteration::TrackerModel;
use crate::session::{
    all_pass, is_next_story, next_story, next_story_is_unique, next_story_of, SessionManager,
};
use crate::types::{
    health_of, optional_prd, story_views, ActivityEntry, ActivityKind, ContextHealth, EntryView,
    ErrorView, IterationResult, KindView, Prd, PrdView, RalphError, ResultView, Session,
    SessionStatus, SessionView, Signal, SignalView, StatusView, StoryView, TokenUsage,
};
use vstd::prelude::*;
use vstd::string::{StrSliceExecFns, StringExecFns};

verus! {

/// Whether the story at place `i` is the first that has the given id.
pub open spec fn is_first_with_id(stories: Seq<StoryView>, id: Seq<char>, i: int) -> bool {
    &&& 0 <= i < stories.len()
    &&& stories[i].id == id
    &&& forall|j: int| 0 <= j < i ==> (#[trigger] stories[j]).id != id
}

/// Whether a story has the given id.
pub open spec fn has_id(stories: Seq<StoryView>, id: Seq<char>) -> bool {
    exists|i: int| 0 <= i < stories.len() && (#[trigger] stories[i]).id == id
}

/// The stories once the first story with the given id is marked as passed.
/// Where no story has the id nothing changes.
pub open spec fn marked(stories: Seq<StoryView>, id: Seq<char>) -> Seq<StoryView> {
    if has_id(stories, id) {
        let i = choose|i: int| is_first_with_id(stories, id, i);
        stories.update(i, StoryView { passes: true, ..stories[i] })
    } else {
        stories
    }
}

/// At most one story is the first with an id.
pub proof fn first_with_id_is_unique(stories: Seq<StoryView>, id: Seq<char>, i: int, j: int)
    requires
        is_first_with_id(stories, id, i),
        is_first_with_id(stories, id, j),
    ensures
        i == j,
{
    if i < j {
        assert(stories[i].id == id);
    } else if j < i {
        assert(stories[j].id == id);
    }
}

/// Where a story among the first `n` has the id, one of them is the first
/// that has it.
proof fn first_with_id_exists(stories: Seq<StoryView>, id: Seq<char>, n: int)
    requires
        0 <= n <= stories.len(),
        exists|i: int| 0 <= i < n && (#[trigger] stories[i]).id == id,
    ensures
        exists|i: int| is_first_with_id(stories, id, i),
    decreases n,
{
    if exists|i: int| 0 <= i < n - 1 && (#[trigger] stories[i]).id == id {
        first_with_id_exists(stories, id, n - 1);
    } else {
        assert(stories[n - 1].id == id);
        assert(is_first_with_id(stories, id, n - 1));
    }
}

/// Marking keeps every story in its place, changes nothing but `passes`, and
/// never takes a pass back: a story that had passed has passed afterwards.
pub proof fn marking_never_reverts(stories: Seq<StoryView>, id: Seq<char>)
    ensures
        marked(stories, id).len() == stories.len(),
        forall|j: int|
            0 <= j < stories.len() ==> (#[trigger] marked(stories, id)[j]) == (StoryView {
                passes: marked(stories, id)[j].passes,
                ..stories[j]
            }),
        forall|j: int|
            0 <= j < stories.len() && stories[j].passes ==> (#[trigger] marked(
                stories,
                id,
            )[j]).passes,
{
    if has_id(stories, id) {
        first_with_id_exists(stories, id, stories.len() as int);
    }
}

/// Marks the first story that has the given id as passed.
pub fn mark_passed(prd: &mut Prd, story_id: &str)
    ensures
        final(prd)@ == (PrdView { stories: marked(old(prd)@.stories, story_id@), ..old(prd)@ }),
{
    let ghost views = story_views(prd.stories@);
    let wanted = story_id.to_owned();
    let mut i: usize = 0;
    while i < prd.stories.len()
        invariant
            i <= prd.stories.len(),
            *prd == *old(prd),
            views == story_views(prd.stories@),
            wanted@ == story_id@,
            forall|j: int| 0 <= j < i ==> (#[trigger] views[j]).id != story_id@,
        decreases prd.stories.len() - i,
    {
        if prd.stories[i].id == wanted {
            assert(views[i as int].id == story_id@);
            assert(is_first_with_id(views, story_id@, i as int));
            proof {
                let c = choose|c: int| is_first_with_id(views, story_id@, c);
                first_with_id_is_unique(views, story_id@, i as int, c);
            }
            let mut story = prd.stories[i].clone();
            story.passes = true;
            prd.stories.set(i, story);
            assert(story_views(prd.stories@) =~= marked(views, story_id@));
            return ;
        }
        i += 1;
    }
    assert(!has_id(views, story_id@));
}

/// Where a run loop stands.
#[derive(Debug, PartialEq, Eq)]
pub enum LoopPhase {
    /// About to look at the session and pick a story.
    Polling,
    /// The agent is at work on a story.
    Running { story_id: String },
    /// A story is done and the requirements document is to be written out.
    Persisting { story_id: String },
    /// The loop has ended.
    Finished,
}

/// A loop phase with its text as a character sequence.
pub enum PhaseView {
    Polling,
    Running { story_id: Seq<char> },
    Persisting { story_id: Seq<char> },
    Finished,
}

impl View for LoopPhase {
    type V = PhaseView;

    open spec fn view(&self) -> PhaseView {
        match *self {
            LoopPhase::Polling => PhaseView::Polling,
            LoopPhase::Running { story_id } => PhaseView::Running { story_id: story_id@ },
            LoopPhase::Persisting { story_id } => PhaseView::Persisting { story_id: story_id@ },
            LoopPhase::Finished => PhaseView::Finished,
        }
    }
}

/// What the loop found when it polled, and what is to be done about it.
#[derive(Debug, PartialEq, Eq)]
pub enum LoopStep {
    /// The loop had ended before: nothing was done.
    Ended,
    /// The iteration limit is reached: the session is marked as failed and
    /// the loop has ended.
    Exhausted,
    /// The session shows as paused or idle: the loop has ended and nothing
    /// was written.
    Stopped,
    /// No story is left: the session is marked as complete, the entry is to
    /// be broadcast, and the loop has ended.
    Completed(ActivityEntry),
    /// The agent is to be run on the story with this id.
    Run { story_id: String },
}

/// A loop step with its texts as character sequences.
pub enum StepView {
    Ended,
    Exhausted,
    Stopped,
    Completed(EntryView),
    Run { story_id: Seq<char> },
}

impl View for LoopStep {
    type V = StepView;

    open spec fn view(&self) -> StepView {
        match *self {
            LoopStep::Ended => StepView::Ended,
            LoopStep::Exhausted => StepView::Exhausted,
            LoopStep::Stopped => StepView::Stopped,
            LoopStep::Completed(entry) => StepView::Completed(entry@),
            LoopStep::Run { story_id } => StepView::Run { story_id: story_id@ },
        }
    }
}

/// What is to be done once an iteration's result is taken in.
#[derive(Debug, PartialEq, Eq)]
pub enum Conclusion {
    /// The story is done: the requirements document is to be written out as
    /// given here, with the story marked as passed, and then `persisted` is
    /// to be called. The loop's own session and the table do not show the
    /// mark before that.
    Persist(Option<Prd>),
    /// The entry is to be broadcast and the loop polls again.
    Continue(ActivityEntry),
    /// The entry is to be broadcast and the loop has ended.
    Halt(ActivityEntry),
}

/// A conclusion with its texts as character sequences.
pub enum ConclusionView {
    Persist(Option<PrdView>),
    Continue(EntryView),
    Halt(EntryView),
}

impl View for Conclusion {
    type V = ConclusionView;

    open spec fn view(&self) -> ConclusionView {
        match *self {
            Conclusion::Persist(document) => ConclusionView::Persist(optional_prd(document)),
            Conclusion::Continue(entry) => ConclusionView::Continue(entry@),
            Conclusion::Halt(entry) => ConclusionView::Halt(entry@),
        }
    }
}

/// A run loop: its own copy of the session and where it stands.
pub struct LoopView {
    pub session: SessionView,
    pub phase: PhaseView,
}

/// The cases of a poll, in the order in which they are tried.
pub enum PollCase {
    Ended,
    Exhausted,
    Missing,
    Stopped,
    Completed,
    Run(int),
}

/// The entry that announces `signal` for a session at time `now`, with the
/// health of the session's token counters.
pub open spec fn signal_entry(session: SessionView, signal: SignalView, now: u64) -> EntryView {
    EntryView {
        timestamp: now,
        iteration: session.current_iteration,
        kind: KindView::Signal(signal),
        health: health_of(
            session.token_usage.total as int,
            session.config.warn_threshold as int,
            session.config.rotate_threshold as int,
        ),
    }
}

/// The status that is stored when a loop writes its session back after an
/// iteration: a pause or a stop that the table shows is kept, so that the
/// loop sees it when it next polls.
pub open spec fn kept_status(table: Map<Seq<char>, SessionView>, session: SessionView)
    -> StatusView {
    if table.contains_key(session.id) && (table[session.id].status is Paused
        || table[session.id].status is Idle) {
        table[session.id].status
    } else {
        session.status
    }
}

impl LoopView {
    /// The loop is in the middle of an iteration only below the iteration
    /// limit.
    pub open spec fn wf(self) -> bool {
        (self.phase is Running || self.phase is Persisting) ==> self.session.current_iteration
            < self.session.config.max_iterations
    }

    /// What a poll finds: a loop that has ended stays ended; else the
    /// iteration limit is tried first, then whether the table still has the
    /// session, then whether the session shows as paused or idle, then
    /// whether a story is left.
    pub open spec fn poll_case(self, table: Map<Seq<char>, SessionView>) -> PollCase {
        if self.phase is Finished {
            PollCase::Ended
        } else if self.session.current_iteration >= self.session.config.max_iterations {
            PollCase::Exhausted
        } else if !table.contains_key(self.session.id) {
            PollCase::Missing
        } else if table[self.session.id].status is Paused || table[self.session.id].status
            is Idle {
            PollCase::Stopped
        } else {
            match self.session.prd {
                None => PollCase::Completed,
                Some(prd) => match next_story_of(prd.stories) {
                    None => PollCase::Completed,
                    Some(i) => PollCase::Run(i),
                },
            }
        }
    }

    /// The loop's session after a poll at time `now`.
    pub open spec fn session_after_poll(self, table: Map<Seq<char>, SessionView>, now: u64)
        -> SessionView {
        match self.poll_case(table) {
            PollCase::Exhausted => SessionView {
                status: StatusView::Failed { error: "Max iterations reached"@ },
                updated_at: now,
                ..self.session
            },
            PollCase::Completed => SessionView {
                status: StatusView::Complete,
                updated_at: now,
                ..self.session
            },
            PollCase::Run(i) => SessionView {
                status: StatusView::Running { story_id: self.session.prd->0.stories[i].id },
                updated_at: now,
                ..self.session
            },
            _ => self.session,
        }
    }

    /// The loop after a poll at time `now`.
    pub open spec fn after_poll(self, table: Map<Seq<char>, SessionView>, now: u64) -> LoopView {
        LoopView {
            session: self.session_after_poll(table, now),
            phase: match self.poll_case(table) {
                PollCase::Run(i) => PhaseView::Running {
                    story_id: self.session.prd->0.stories[i].id,
                },
                _ => PhaseView::Finished,
            },
        }
    }

    /// The table after a poll at time `now`: the loop's session is stored
    /// wherever the poll changed it.
    pub open spec fn table_after_poll(self, table: Map<Seq<char>, SessionView>, now: u64) -> Map<
        Seq<char>,
        SessionView,
    > {
        match self.poll_case(table) {
            PollCase::Exhausted | PollCase::Completed | PollCase::Run(_) => table.insert(
                self.session.id,
                self.session_after_poll(table, now),
            ),
            _ => table,
        }
    }

    /// What a poll at time `now` returns.
    pub open spec fn poll_result(self, table: Map<Seq<char>, SessionView>, now: u64) -> Result<
        StepView,
        ErrorView,
    > {
        match self.poll_case(table) {
            PollCase::Ended => Ok(StepView::Ended),
            PollCase::Exhausted => Ok(StepView::Exhausted),
            PollCase::Missing => Err(ErrorView::SessionNotFound(self.session.id)),
            PollCase::Stopped => Ok(StepView::Stopped),
            PollCase::Completed => Ok(
                StepView::Completed(
                    signal_entry(self.session_after_poll(table, now), SignalView::Complete, now),
                ),
            ),
            PollCase::Run(i) => Ok(StepView::Run { story_id: self.session.prd->0.stories[i].id }),
        }
    }

    /// The requirements document of the loop's session with the first story
    /// that has the given id marked as passed.
    pub open spec fn marked_document(self, story_id: Seq<char>) -> Option<PrdView> {
        match self.session.prd {
            Some(prd) => Some(PrdView { stories: marked(prd.stories, story_id), ..prd }),
            None => None,
        }
    }

    /// The loop's session once the result of the iteration on `story_id` is
    /// taken in at time `now`, the token counters standing at `usage`. A
    /// finished story is not yet marked: that waits until the requirements
    /// document is written out.
    pub open spec fn session_after_result(
        self,
        story_id: Seq<char>,
        result: ResultView,
        usage: TokenUsage,
        now: u64,
    ) -> SessionView {
        match result {
            ResultView::StoryComplete => SessionView { token_usage: usage, ..self.session },
            ResultView::Rotate => SessionView {
                token_usage: TokenUsage::zero(),
                current_iteration: (self.session.current_iteration + 1) as u32,
                updated_at: now,
                ..self.session
            },
            ResultView::Gutter(reason) => SessionView {
                token_usage: usage,
                status: StatusView::Gutter { reason },
                updated_at: now,
                ..self.session
            },
        }
    }

    /// The loop's session once the requirements document is written out, at
    /// time `now`: the story with the given id is marked as passed and counts
    /// as an iteration.
    pub open spec fn session_after_persisting(self, story_id: Seq<char>, now: u64) -> SessionView {
        SessionView {
            prd: self.marked_document(story_id),
            current_iteration: (self.session.current_iteration + 1) as u32,
            updated_at: now,
            ..self.session
        }
    }

    /// The loop's session once the loop has ended on an error at time `now`:
    /// it shows as failed with the error's description, and nothing else of
    /// it has changed.
    pub open spec fn session_after_failure(self, error: ErrorView, now: u64) -> SessionView {
        SessionView {
            status: StatusView::Failed { error: error.text() },
            updated_at: now,
            ..self.session
        }
    }
}

/// A session as a loop stores it after an iteration.
pub open spec fn written_back(table: Map<Seq<char>, SessionView>, session: SessionView)
    -> SessionView {
    SessionView { status: kept_status(table, session), ..session }
}

/// Drives one session through its stories. The loop decides; whoever runs it
/// does the work in between: runs the agent, writes the requirements
/// document out, broadcasts the entries.
pub struct RunLoop {
    session: Session,
    phase: LoopPhase,
}

impl View for RunLoop {
    type V = LoopView;

    closed spec fn view(&self) -> LoopView {
        LoopView { session: self.session@, phase: self.phase@ }
    }
}

fn signal_entry_for(session: &Session, signal: Signal, now: u64) -> (entry: ActivityEntry)
    ensures
        entry@ == signal_entry(session@, signal@, now),
{
    ActivityEntry {
        timestamp: now,
        iteration: session.current_iteration,
        kind: ActivityKind::Signal(signal),
        health: session.token_usage.health(
            session.config.warn_threshold,
            session.config.rotate_threshold,
        ),
    }
}

fn write_back(manager: &mut SessionManager, session: &Session)
    requires
        old(manager).wf(),
    ensures
        final(manager).wf(),
        final(manager)@ == old(manager)@.insert(session@.id, written_back(old(manager)@, session@)),
{
    let mut copy = session.clone();
    match manager.get_session(session.id.as_str()) {
        Ok(stored) => {
            match stored.status {
                SessionStatus::Paused => {
                    copy.status = SessionStatus::Paused;
                },
                SessionStatus::Idle => {
                    copy.status = SessionStatus::Idle;
                },
                _ => {},
            }
        },
        Err(_) => {},
    }
    let _ = manager.update_session(copy);
}

impl RunLoop {
    /// A loop for `session`, about to poll.
    pub fn new(session: Session) -> (run_loop: RunLoop)
        ensures
            run_loop@ == (LoopView { session: session@, phase: PhaseView::Polling }),
            run_loop@.wf(),
    {
        RunLoop { session, phase: LoopPhase::Polling }
    }

    /// The loop's own copy of the session.
    pub fn session(&self) -> (session: &Session)
        ensures
            session@ == self@.session,
    {
        &self.session
    }

    /// Where the loop stands.
    pub fn phase(&self) -> (phase: &LoopPhase)
        ensures
            phase@ == self@.phase,
    {
        &self.phase
    }

    /// Looks at the session at time `now` and decides what comes next. In
    /// this order: a loop that has ended stays ended; at the iteration limit
    /// the session is marked as failed; a session that is gone from the table
    /// ends the loop with an error; a session that shows as paused or idle
    /// ends the loop; with no story left the session is marked as complete;
    /// else the session is marked as running the next story. Whatever the
    /// loop changes in its session it stores in the table.
    pub fn poll(&mut self, manager: &mut SessionManager, now: u64) -> (step: Result<
        LoopStep,
        RalphError,
    >)
        requires
            old(manager).wf(),
            old(self)@.wf(),
            !(old(self)@.phase is Running),
            !(old(self)@.phase is Persisting),
        ensures
            final(manager).wf(),
            final(self)@.wf(),
            final(self)@ == old(self)@.after_poll(old(manager)@, now),
            final(manager)@ == old(self)@.table_after_poll(old(manager)@, now),
            match step {
                Ok(step) => old(self)@.poll_result(old(manager)@, now) == Ok::<
                    StepView,
                    ErrorView,
                >(step@),
                Err(error) => old(self)@.poll_result(old(manager)@, now) == Err::<
                    StepView,
                    ErrorView,
                >(error@),
            },
    {
        if let LoopPhase::Finished = self.phase {
            return Ok(LoopStep::Ended);
        }
        if self.session.current_iteration >= self.session.config.max_iterations {
            self.session.status = SessionStatus::Failed {
                error: String::from_str("Max iterations reached"),
            };
            self.session.updated_at = now;
            self.phase = LoopPhase::Finished;
            let _ = manager.update_session(self.session.clone());
            return Ok(LoopStep::Exhausted);
        }
        let current = match manager.get_session(self.session.id.as_str()) {
            Ok(current) => current,
            Err(error) => {
                self.phase = LoopPhase::Finished;
                return Err(error);
            },
        };
        match current.status {
            SessionStatus::Paused | SessionStatus::Idle => {
                self.phase = LoopPhase::Finished;
                return Ok(LoopStep::Stopped);
            },
            _ => {},
        }
        let choice: Option<String> = match &self.session.prd {
            Some(prd) => match next_story(&prd.stories) {
                Some(i) => Some(prd.stories[i].id.clone()),
                None => None,
            },
            None => None,
        };
        match choice {
            None => {
                self.session.status = SessionStatus::Complete;
                self.session.updated_at = now;
                self.phase = LoopPhase::Finished;
                let _ = manager.update_session(self.session.clone());
                Ok(LoopStep::Completed(signal_entry_for(&self.session, Signal::Complete, now)))
            },
            Some(story_id) => {
                self.session.status = SessionStatus::Running { story_id: story_id.clone() };
                self.session.updated_at = now;
                self.phase = LoopPhase::Running { story_id: story_id.clone() };
                let _ = manager.update_session(self.session.clone());
                Ok(LoopStep::Run { story_id })
            },
        }
    }

    /// Takes in the result of the iteration at time `now`, the token counters
    /// standing at `usage`.
    ///
    /// For a finished story the requirements document with the story marked
    /// as passed is handed out to be written; the loop's session and the
    /// table keep the document as it was until `persisted` is called, so that
    /// a failed write leaves the story unpassed. A rotation counts as an
    /// iteration and sets the token
    /// counters back to zero. The gutter ends the loop with the session
    /// marked so.
    pub fn conclude(
        &mut self,
        manager: &mut SessionManager,
        result: IterationResult,
        usage: TokenUsage,
        now: u64,
    ) -> (conclusion: Conclusion)
        requires
            old(manager).wf(),
            old(self)@.wf(),
            old(self)@.phase is Running,
        ensures
            final(manager).wf(),
            final(self)@.wf(),
            final(self)@.session == old(self)@.session_after_result(
                old(self)@.phase->Running_story_id,
                result@,
                usage,
                now,
            ),
            match result@ {
                ResultView::StoryComplete => {
                    &&& conclusion@ == ConclusionView::Persist(
                        old(self)@.marked_document(old(self)@.phase->Running_story_id),
                    )
                    &&& final(self)@.phase == PhaseView::Persisting {
                        story_id: old(self)@.phase->Running_story_id,
                    }
                    &&& final(manager)@ == old(manager)@
                },
                ResultView::Rotate => {
                    &&& conclusion@ == ConclusionView::Continue(
                        EntryView {
                            health: ContextHealth::Critical,
                            ..signal_entry(final(self)@.session, SignalView::Rotate, now)
                        },
                    )
                    &&& final(self)@.phase == PhaseView::Polling
                    &&& final(manager)@ == old(manager)@.insert(
                        old(self)@.session.id,
                        written_back(old(manager)@, final(self)@.session),
                    )
                },
                ResultView::Gutter(reason) => {
                    &&& conclusion@ == ConclusionView::Halt(
                        signal_entry(final(self)@.session, SignalView::Gutter(reason), now),
                    )
                    &&& final(self)@.phase == PhaseView::Finished
                    &&& final(manager)@ == old(manager)@.insert(
                        old(self)@.session.id,
                        final(self)@.session,
                    )
                },
            },
    {
        let story_id: String = match &self.phase {
            LoopPhase::Running { story_id } => story_id.clone(),
            _ => String::new(),
        };
        match result {
            IterationResult::StoryComplete => {
                self.session.token_usage = usage;
                let document = match &self.session.prd {
                    Some(prd) => {
                        let mut document = prd.clone();
                        mark_passed(&mut document, story_id.as_str());
                        Some(document)
                    },
                    None => None,
                };
                self.phase = LoopPhase::Persisting { story_id };
                Conclusion::Persist(document)
            },
            IterationResult::Rotate => {
                self.session.current_iteration = self.session.current_iteration + 1;
                self.session.token_usage = TokenUsage::default();
                self.session.updated_at = now;
                self.phase = LoopPhase::Polling;
                write_back(manager, &self.session);
                let entry = ActivityEntry {
                    timestamp: now,
                    iteration: self.session.current_iteration,
                    kind: ActivityKind::Signal(Signal::Rotate),
                    health: ContextHealth::Critical,
                };
                Conclusion::Continue(entry)
            },
            IterationResult::Gutter(reason) => {
                self.session.token_usage = usage;
                self.session.status = SessionStatus::Gutter { reason: reason.clone() };
                self.session.updated_at = now;
                self.phase = LoopPhase::Finished;
                let _ = manager.update_session(self.session.clone());
                Conclusion::Halt(signal_entry_for(&self.session, Signal::Gutter(reason), now))
            },
        }
    }

    /// Goes on after the requirements document was written out, at time
    /// `now`: the finished story is marked as passed and counts as an
    /// iteration, the session is stored, and the returned entry announces the
    /// story as complete.
    pub fn persisted(&mut self, manager: &mut SessionManager, now: u64) -> (entry: ActivityEntry)
        requires
            old(manager).wf(),
            old(self)@.wf(),
            old(self)@.phase is Persisting,
        ensures
            final(manager).wf(),
            final(self)@.wf(),
            final(self)@ == (LoopView {
                session: old(self)@.session_after_persisting(
                    old(self)@.phase->Persisting_story_id,
                    now,
                ),
                phase: PhaseView::Polling,
            }),
            final(manager)@ == old(manager)@.insert(
                old(self)@.session.id,
                written_back(old(manager)@, final(self)@.session),
            ),
            entry@ == signal_entry(
                final(self)@.session,
                SignalView::StoryComplete(old(self)@.phase->Persisting_story_id),
                now,
            ),
    {
        let story_id: String = match &self.phase {
            LoopPhase::Persisting { story_id } => story_id.clone(),
            _ => String::new(),
        };
        match &mut self.session.prd {
            Some(prd) => {
                mark_passed(prd, story_id.as_str());
            },
            None => {},
        }
        self.session.current_iteration = self.session.current_iteration + 1;
        self.session.updated_at = now;
        self.phase = LoopPhase::Polling;
        write_back(manager, &self.session);
        signal_entry_for(&self.session, Signal::StoryComplete(story_id), now)
    }

    /// Ends the loop on an error of whoever runs it, at time `now`: the
    /// session is marked as failed with the error's description and stored.
    /// Nothing else of the session changes: after a failed run of the agent,
    /// and after a failed write of the requirements document, the story of
    /// the iteration is stored as not passed. A loop that has ended stays as
    /// it is.
    pub fn fail(&mut self, manager: &mut SessionManager, error: &RalphError, now: u64)
        requires
            old(manager).wf(),
            old(self)@.wf(),
        ensures
            final(manager).wf(),
            final(self)@.wf(),
            if old(self)@.phase is Finished {
                final(self)@ == old(self)@ && final(manager)@ == old(manager)@
            } else {
                &&& final(self)@ == (LoopView {
                    session: old(self)@.session_after_failure(error@, now),
                    phase: PhaseView::Finished,
                })
                &&& final(manager)@ == old(manager)@.insert(
                    old(self)@.session.id,
                    final(self)@.session,
                )
            },
    {
        if let LoopPhase::Finished = self.phase {
            return ;
        }
        self.session.status = SessionStatus::Failed { error: error.message() };
        self.session.updated_at = now;
        self.phase = LoopPhase::Finished;
        let _ = manager.update_session(self.session.clone());
    }
}

/// Where an iteration fails, the stories are stored as they stood when the
/// iteration began, and none of them is announced as complete: be it that
/// the agent failed, or that the story was done and the write of the
/// requirements document failed. The session is stored as failed with the
/// error's description.
pub proof fn failure_leaves_stories_as_they_were(
    run_loop: LoopView,
    story_id: Seq<char>,
    usage: TokenUsage,
    error: ErrorView,
    now: u64,
    later: u64,
)
    ensures
        run_loop.session_after_failure(error, now).prd == run_loop.session.prd,
        run_loop.session_after_failure(error, now).status == (StatusView::Failed {
            error: error.text(),
        }),
        (LoopView {
            session: run_loop.session_after_result(story_id, ResultView::StoryComplete, usage, now),
            phase: PhaseView::Persisting { story_id },
        }).session_after_failure(error, later).prd == run_loop.session.prd,
        (LoopView {
            session: run_loop.session_after_result(story_id, ResultView::StoryComplete, usage, now),
            phase: PhaseView::Persisting { story_id },
        }).session_after_failure(error, later).current_iteration
            == run_loop.session.current_iteration,
{
}

/// A running session with its thresholds in order, no token used, room for
/// two iterations and one story that has not passed, whose agent exits
/// cleanly without a line of activity: the loop picks the story and shows the
/// session as running it; the iteration ends with the story done; the
/// document to write out has the story marked as passed; once it is written
/// the story is stored as passed, one iteration is counted and the story is
/// announced as complete; and the next poll finds no story left, marks the
/// session as complete and announces that.
pub proof fn one_story_session_completes(
    run_loop: LoopView,
    table: Map<Seq<char>, SessionView>,
    t1: u64,
    t2: u64,
    t3: u64,
    t4: u64,
)
    requires
        run_loop.phase is Polling,
        run_loop.session.config.thresholds_in_order(),
        run_loop.session.current_iteration + 1 < run_loop.session.config.max_iterations,
        run_loop.session.token_usage == TokenUsage::zero(),
        run_loop.session.prd is Some,
        run_loop.session.prd->0.stories.len() == 1,
        !run_loop.session.prd->0.stories[0].passes,
        table.contains_key(run_loop.session.id),
        !(table[run_loop.session.id].status is Paused),
        !(table[run_loop.session.id].status is Idle),
    ensures
        ({
            let id = run_loop.session.id;
            let story = run_loop.session.prd->0.stories[0].id;
            let started = run_loop.after_poll(table, t1);
            let table1 = run_loop.table_after_poll(table, t1);
            let tracker = TrackerModel::begin(started.session);
            let decided = LoopView {
                session: started.session_after_result(
                    story,
                    tracker.outcome(),
                    tracker.parser.usage,
                    t2,
                ),
                phase: PhaseView::Persisting { story_id: story },
            };
            let stored = LoopView {
                session: decided.session_after_persisting(story, t3),
                phase: PhaseView::Polling,
            };
            let table3 = table1.insert(id, written_back(table1, stored.session));
            &&& run_loop.poll_result(table, t1) == Ok::<StepView, ErrorView>(
                StepView::Run { story_id: story },
            )
            &&& started.phase == PhaseView::Running { story_id: story }
            &&& table1[id].status == StatusView::Running { story_id: story }
            &&& tracker.outcome() == ResultView::StoryComplete
            &&& decided.marked_document(story) matches Some(document) && document.stories.len()
                == 1 && document.stories[0].passes
            &&& table1[id].prd == run_loop.session.prd
            &&& table3[id].prd == decided.marked_document(story)
            &&& table3[id].current_iteration == run_loop.session.current_iteration + 1
            &&& signal_entry(stored.session, SignalView::StoryComplete(story), t3).iteration
                == run_loop.session.current_iteration + 1
            &&& stored.poll_case(table3) == PollCase::Completed
            &&& stored.poll_result(table3, t4) matches Ok(StepView::Completed(entry)) && entry.kind
                == KindView::Signal(SignalView::Complete)
            &&& stored.table_after_poll(table3, t4)[id].status == StatusView::Complete
            &&& stored.after_poll(table3, t4).phase == PhaseView::Finished
        }),
{
    let stories = run_loop.session.prd->0.stories;
    let story = stories[0].id;
    assert(!all_pass(stories));
    assert(is_next_story(stories, 0));
    let chosen = choose|i: int| is_next_story(stories, i);
    next_story_is_unique(stories, 0, chosen);
    assert(next_story_of(stories) == Some(0int));
    assert(has_id(stories, story));
    assert(is_first_with_id(stories, story, 0));
    let first = choose|i: int| is_first_with_id(stories, story, i);
    first_with_id_is_unique(stories, story, 0, first);
    let after = marked(stories, story);
    assert(after.len() == 1 && after[0].passes);
    assert(all_pass(after));
}

/// Once all stories have passed, a poll that gets as far as the stories
/// picks none, marks the session as complete, announces that once and ends
/// the loop. A loop that has ended does nothing more, however often it is
/// polled: it stays as it is, stores nothing and announces nothing.
pub proof fn completes_exactly_once(
    run_loop: LoopView,
    table: Map<Seq<char>, SessionView>,
    now: u64,
    later: u64,
)
    requires
        run_loop.phase is Polling,
        run_loop.session.current_iteration < run_loop.session.config.max_iterations,
        table.contains_key(run_loop.session.id),
        !(table[run_loop.session.id].status is Paused),
        !(table[run_loop.session.id].status is Idle),
        run_loop.session.prd is Some ==> all_pass(run_loop.session.prd->0.stories),
    ensures
        run_loop.poll_case(table) == PollCase::Completed,
        run_loop.after_poll(table, now).phase == PhaseView::Finished,
        run_loop.after_poll(table, now).session.status == StatusView::Complete,
        run_loop.table_after_poll(table, now)[run_loop.session.id].status == StatusView::Complete,
        run_loop.poll_result(table, now) matches Ok(StepView::Completed(entry)) && entry.kind
            == KindView::Signal(SignalView::Complete),
        run_loop.after_poll(table, now).poll_result(run_loop.table_after_poll(table, now), later)
            == Ok::<StepView, ErrorView>(StepView::Ended),
        run_loop.after_poll(table, now).after_poll(run_loop.table_after_poll(table, now), later)
            == run_loop.after_poll(table, now),
        run_loop.after_poll(table, now).table_after_poll(
            run_loop.table_after_poll(table, now),
            later,
        ) == run_loop.table_after_poll(table, now),
{
}

/// After a poll the loop and the status of its session agree: the loop is at
/// work on a story exactly if the session shows as running that story, and
/// what the loop stored in the table is its own session.
pub proof fn poll_keeps_status_in_step(
    run_loop: LoopView,
    table: Map<Seq<char>, SessionView>,
    now: u64,
)
    requires
        !(run_loop.phase is Finished),
        !(run_loop.session.status is Running),
    ensures
        run_loop.after_poll(table, now).phase matches PhaseView::Running { story_id }
            ==> run_loop.after_poll(table, now).session.status == (StatusView::Running {
            story_id,
        }),
        run_loop.after_poll(table, now).session.status is Running ==> run_loop.after_poll(
            table,
            now,
        ).phase is Running,
        run_loop.poll_case(table) is Exhausted ==> run_loop.after_poll(table, now).session.status
            == (StatusView::Failed { error: "Max iterations reached"@ }),
        run_loop.table_after_poll(table, now) != table ==> run_loop.table_after_poll(
            table,
            now,
        )[run_loop.session.id] == run_loop.after_poll(table, now).session,
{
}

/// A rotation leaves all token counters at zero and counts as an iteration,
/// whatever the counters were.
pub proof fn rotation_resets_tokens(
    run_loop: LoopView,
    story_id: Seq<char>,
    usage: TokenUsage,
    now: u64,
)
    ensures
        run_loop.session_after_result(story_id, ResultView::Rotate, usage, now).token_usage
            == TokenUsage::zero(),
        run_loop.session.current_iteration < u32::MAX ==> run_loop.session_after_result(
            story_id,
            ResultView::Rotate,
            usage,
            now,
        ).current_iteration == run_loop.session.current_iteration + 1,
{
}

/// The prompt of an iteration: the template, and after a rule the
/// guardrails where there are any.
pub open spec fn iteration_prompt(template: Seq<char>, guardrails: Seq<char>) -> Seq<char> {
    if guardrails.len() == 0 {
        template
    } else {
        template + "\n\n---\n\n"@ + guardrails
    }
}

/// Builds the prompt of an iteration from the template and the text of the
/// guardrails.
pub fn build_iteration_prompt(template: &str, guardrails: &str) -> (prompt: String)
    ensures
        prompt@ == iteration_prompt(template@, guardrails@),
{
    let mut prompt = String::from_str(template);
    if guardrails.unicode_len() > 0 {
        prompt.append("\n\n---\n\n");
        prompt.append(guardrails);
    }
    prompt
}

} // verus!
