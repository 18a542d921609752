use crate::ident::{fresh_id, is_random_id};
use crate::table::TextMap;
use crate::text::{debug_quoted, quote_debug};
use crate::types::{
    story_views, ErrorView, Prd, RalphError, Session, SessionConfig, SessionStatus, SessionView,
    StatusView, Story, StoryView, TokenUsage,
};
use vstd::prelude::*;
use vstd::string::StringExecFns;

verus! {

/// Whether every story has passed.
pub open spec fn all_pass(stories: Seq<StoryView>) -> bool {
    forall|i: int| 0 <= i < stories.len() ==> (#[trigger] stories[i]).passes
}

/// Whether the story at place `i` is the one to work on next: it has not
/// passed, no story that has not passed has a lower priority number, and of
/// the stories with that priority number that have not passed it comes first.
pub open spec fn is_next_story(stories: Seq<StoryView>, i: int) -> bool {
    &&& 0 <= i < stories.len()
    &&& !stories[i].passes
    &&& forall|j: int|
        0 <= j < stories.len() && !(#[trigger] stories[j]).passes ==> stories[i].priority
            <= stories[j].priority
    &&& forall|j: int|
        0 <= j < i && !(#[trigger] stories[j]).passes ==> stories[i].priority < stories[j].priority
}

/// The place of the story to work on next, if any story is left.
pub open spec fn next_story_of(stories: Seq<StoryView>) -> Option<int> {
    if all_pass(stories) {
        None
    } else {
        Some(choose|i: int| is_next_story(stories, i))
    }
}

/// At most one story is the next one.
pub proof fn next_story_is_unique(stories: Seq<StoryView>, i: int, j: int)
    requires
        is_next_story(stories, i),
        is_next_story(stories, j),
    ensures
        i == j,
{
    if i < j {
        assert(!stories[i].passes);
    } else if j < i {
        assert(!stories[j].passes);
    }
}

/// When all stories have passed no story is the next one: selecting then
/// yields no story, however often it is done.
pub proof fn no_next_story_when_all_pass(stories: Seq<StoryView>)
    requires
        all_pass(stories),
    ensures
        next_story_of(stories) is None,
        forall|i: int| !is_next_story(stories, i),
{
}

/// Picks the story to work on next: of the stories that have not passed the
/// one with the lowest priority number, the earliest of them where several
/// share it.
pub fn next_story(stories: &Vec<Story>) -> (choice: Option<usize>)
    ensures
        match choice {
            Some(i) => is_next_story(story_views(stories@), i as int),
            None => all_pass(story_views(stories@)),
        },
        next_story_of(story_views(stories@)) == match choice {
            Some(i) => Some(i as int),
            None => None,
        },
{
    let ghost views = story_views(stories@);
    let mut best: Option<usize> = None;
    let mut i: usize = 0;
    while i < stories.len()
        invariant
            i <= stories.len(),
            views == story_views(stories@),
            match best {
                Some(b) => is_next_story(views.take(i as int), b as int),
                None => all_pass(views.take(i as int)),
            },
        decreases stories.len() - i,
    {
        let ghost before = views.take(i as int);
        let ghost after = views.take(i + 1);
        assert(forall|j: int| 0 <= j < i ==> before[j] == after[j]);
        assert(after[i as int] == stories@[i as int]@);
        if !stories[i].passes {
            match best {
                Some(b) => {
                    if stories[i].priority < stories[b].priority {
                        best = Some(i);
                    }
                },
                None => {
                    best = Some(i);
                },
            }
        }
        i += 1;
    }
    assert(views.take(stories.len() as int) =~= views);
    proof {
        match best {
            Some(b) => {
                assert(!views[b as int].passes);
                assert(!all_pass(views));
                let c = choose|c: int| is_next_story(views, c);
                next_story_is_unique(views, b as int, c);
            },
            None => {},
        }
    }
    best
}

/// What `{:?}` writes for a status, given what it writes for the text that
/// the status holds.
pub open spec fn status_frame(status: StatusView, quoted: Seq<char>) -> Seq<char> {
    match status {
        StatusView::Idle => "Idle"@,
        StatusView::Running { .. } => "Running { story_id: "@ + quoted + " }"@,
        StatusView::Paused => "Paused"@,
        StatusView::WaitingForRotation => "WaitingForRotation"@,
        StatusView::Gutter { .. } => "Gutter { reason: "@ + quoted + " }"@,
        StatusView::Complete => "Complete"@,
        StatusView::Failed { .. } => "Failed { error: "@ + quoted + " }"@,
    }
}

/// The text that a status holds, empty where it holds none.
pub open spec fn status_detail(status: StatusView) -> Seq<char> {
    match status {
        StatusView::Running { story_id } => story_id,
        StatusView::Gutter { reason } => reason,
        StatusView::Failed { error } => error,
        _ => Seq::empty(),
    }
}

/// What `{:?}` writes for a status.
pub open spec fn status_debug(status: StatusView) -> Seq<char> {
    status_frame(status, debug_quoted(status_detail(status)))
}

/// Writes a status as `{:?}` does, given the quoted form of its text.
pub fn frame_status(status: &SessionStatus, quoted: &str) -> (text: String)
    ensures
        text@ == status_frame(status@, quoted@),
{
    match status {
        SessionStatus::Idle => String::from_str("Idle"),
        SessionStatus::Running { .. } => {
            let mut text = String::from_str("Running { story_id: ");
            text.append(quoted);
            text.append(" }");
            text
        },
        SessionStatus::Paused => String::from_str("Paused"),
        SessionStatus::WaitingForRotation => String::from_str("WaitingForRotation"),
        SessionStatus::Gutter { .. } => {
            let mut text = String::from_str("Gutter { reason: ");
            text.append(quoted);
            text.append(" }");
            text
        },
        SessionStatus::Complete => String::from_str("Complete"),
        SessionStatus::Failed { .. } => {
            let mut text = String::from_str("Failed { error: ");
            text.append(quoted);
            text.append(" }");
            text
        },
    }
}

/// Writes a status as `{:?}` does.
pub fn describe_status(status: &SessionStatus) -> (text: String)
    ensures
        text@ == status_debug(status@),
{
    let quoted = match status {
        SessionStatus::Running { story_id } => quote_debug(story_id.as_str()),
        SessionStatus::Gutter { reason } => quote_debug(reason.as_str()),
        SessionStatus::Failed { error } => quote_debug(error.as_str()),
        _ => {
            let empty = String::new();
            quote_debug(empty.as_str())
        },
    };
    frame_status(status, quoted.as_str())
}

/// Why a project cannot have a session, if it cannot: its path does not
/// exist, or it exists and is no git repository.
pub open spec fn project_error(project_path: Seq<char>, exists: bool, is_git_repository: bool)
    -> Option<ErrorView> {
    if !exists {
        Some(ErrorView::Io("Project path does not exist: "@ + project_path))
    } else if !is_git_repository {
        Some(ErrorView::Git("Not a git repository"@))
    } else {
        None
    }
}

/// Why a session cannot be started, if it cannot: it is neither idle nor
/// paused, or it has no requirements document, or the document has no story.
pub open spec fn start_error(session: SessionView) -> Option<ErrorView> {
    if !(session.status is Idle || session.status is Paused) {
        Some(
            ErrorView::InvalidState(
                "Cannot start session in state: "@ + status_debug(session.status),
            ),
        )
    } else if session.prd is None {
        Some(
            ErrorView::InvalidState(
                "Cannot start session without a PRD. Please set a PRD first."@,
            ),
        )
    } else if session.prd->0.stories.len() == 0 {
        Some(
            ErrorView::InvalidState(
                "Cannot start session with empty PRD. PRD must contain at least one story."@,
            ),
        )
    } else {
        None
    }
}

/// The session that is made for a project: idle, without a requirements
/// document, at iteration 0 with all token counters at zero.
pub open spec fn fresh_session(
    id: Seq<char>,
    project_path: Seq<char>,
    config: crate::types::ConfigView,
    now: u64,
) -> SessionView {
    SessionView {
        id,
        project_path,
        status: StatusView::Idle,
        config,
        prd: None,
        current_iteration: 0,
        token_usage: TokenUsage::zero(),
        created_at: now,
        updated_at: now,
    }
}

/// The status that a session shows between `start` and the first story.
pub open spec fn starting_status() -> StatusView {
    StatusView::Running { story_id: "initializing"@ }
}

/// Says whether a project can have a session.
pub fn check_project(project_path: &str, exists: bool, is_git_repository: bool) -> (checked:
    Result<(), RalphError>)
    ensures
        match checked {
            Ok(_) => project_error(project_path@, exists, is_git_repository) is None,
            Err(error) => project_error(project_path@, exists, is_git_repository) == Some(error@),
        },
{
    if !exists {
        let mut detail = String::from_str("Project path does not exist: ");
        detail.append(project_path);
        Err(RalphError::Io(detail))
    } else if !is_git_repository {
        Err(RalphError::Git(String::from_str("Not a git repository")))
    } else {
        Ok(())
    }
}

/// Says whether a session can be started.
pub fn check_start(session: &Session) -> (checked: Result<(), RalphError>)
    ensures
        match checked {
            Ok(_) => start_error(session@) is None,
            Err(error) => start_error(session@) == Some(error@),
        },
{
    match &session.status {
        SessionStatus::Idle | SessionStatus::Paused => {},
        _ => {
            let mut detail = String::from_str("Cannot start session in state: ");
            let described = describe_status(&session.status);
            detail.append(described.as_str());
            return Err(RalphError::InvalidState(detail));
        },
    }
    match &session.prd {
        None => Err(
            RalphError::InvalidState(
                String::from_str("Cannot start session without a PRD. Please set a PRD first."),
            ),
        ),
        Some(prd) => {
            assert(story_views(prd.stories@).len() == prd.stories@.len());
            if prd.stories.len() == 0 {
                Err(
                    RalphError::InvalidState(
                        String::from_str(
                            "Cannot start session with empty PRD. PRD must contain at least one story.",
                        ),
                    ),
                )
            } else {
                Ok(())
            }
        },
    }
}

spec fn session_views(sessions: Map<Seq<char>, Session>) -> Map<Seq<char>, SessionView> {
    sessions.map_values(|session: Session| session@)
}

/// The table of sessions, by id.
pub struct SessionManager {
    sessions: TextMap<Session>,
}

impl View for SessionManager {
    type V = Map<Seq<char>, SessionView>;

    closed spec fn view(&self) -> Map<Seq<char>, SessionView> {
        session_views(self.sessions@)
    }
}

impl SessionManager {
    /// Every session stands in the table once, under its own id.
    pub closed spec fn wf(&self) -> bool {
        &&& self.sessions.wf()
        &&& forall|id: Seq<char>| #[trigger]
            self.sessions@.contains_key(id) ==> self.sessions@[id].id@ == id
    }

    /// The ids of the sessions in the order in which they were first stored.
    pub closed spec fn ids(&self) -> Seq<Seq<char>> {
        self.sessions.keys()
    }

    /// The ids are distinct and are exactly the ids in the table, and each
    /// session carries the id that it stands under.
    pub proof fn ids_are_the_sessions(&self)
        requires
            self.wf(),
        ensures
            self.ids().no_duplicates(),
            self@.dom() == self.ids().to_set(),
            self@.dom().finite(),
            self@.dom().len() == self.ids().len(),
            forall|id: Seq<char>| #[trigger] self@.contains_key(id) ==> self@[id].id == id,
    {
        self.sessions.keys_are_the_domain();
        assert(self@.dom() =~= self.sessions@.dom());
    }

    pub fn new() -> (manager: SessionManager)
        ensures
            manager.wf(),
            manager@ == Map::<Seq<char>, SessionView>::empty(),
            manager.ids() == Seq::<Seq<char>>::empty(),
    {
        let manager = SessionManager { sessions: TextMap::new() };
        assert(manager@ =~= Map::<Seq<char>, SessionView>::empty());
        manager
    }

    /// Stores `session` under its id, in place of what stood there. A new id
    /// goes to the end of the order of ids.
    pub fn update_session(&mut self, session: Session) -> (done: Result<(), RalphError>)
        requires
            old(self).wf(),
        ensures
            final(self).wf(),
            done is Ok,
            final(self)@ == old(self)@.insert(session@.id, session@),
            final(self).ids() == if old(self)@.contains_key(session@.id) {
                old(self).ids()
            } else {
                old(self).ids().push(session@.id)
            },
    {
        let ghost before = self.sessions@;
        let id = session.id.clone();
        self.sessions.insert(id, session);
        proof {
            assert(session_views(before.insert(session.id@, session)) =~= session_views(
                before,
            ).insert(session@.id, session@));
            assert(session_views(before).dom() =~= before.dom());
        }
        Ok(())
    }

    /// A copy of the session with the given id.
    pub fn get_session(&self, id: &str) -> (found: Result<Session, RalphError>)
        requires
            self.wf(),
        ensures
            match found {
                Ok(session) => self@.contains_key(id@) && session@ == self@[id@],
                Err(error) => !self@.contains_key(id@) && error@ == ErrorView::SessionNotFound(
                    id@,
                ),
            },
    {
        assert(session_views(self.sessions@).dom() =~= self.sessions@.dom());
        match self.sessions.get(id) {
            Some(session) => Ok(session.clone()),
            None => Err(RalphError::SessionNotFound(String::from_str(id))),
        }
    }

    /// Copies of all sessions, in the order of their ids.
    pub fn list_sessions(&self) -> (sessions: Vec<Session>)
        requires
            self.wf(),
        ensures
            sessions@.len() == self.ids().len(),
            forall|i: int|
                0 <= i < sessions@.len() ==> self@.contains_key(#[trigger] self.ids()[i]),
            forall|i: int|
                0 <= i < sessions@.len() ==> (#[trigger] sessions@[i])@ == self@[self.ids()[i]],
    {
        let mut sessions: Vec<Session> = Vec::new();
        let count = self.sessions.len();
        let mut i: usize = 0;
        while i < count
            invariant
                self.wf(),
                count == self.ids().len(),
                i <= count,
                sessions@.len() == i,
                forall|j: int| 0 <= j < i ==> self@.contains_key(#[trigger] self.ids()[j]),
                forall|j: int|
                    0 <= j < i ==> (#[trigger] sessions@[j])@ == self@[self.ids()[j]],
            decreases count - i,
        {
            let session = self.sessions.value_at(i);
            let copy = session.clone();
            proof {
                let key = self.ids()[i as int];
                assert(self.sessions@.contains_key(key));
                assert(self@.contains_key(key));
                assert(self@[key] == self.sessions@[key]@);
                assert(copy@ == self@[key]);
            }
            let ghost before = sessions@;
            sessions.push(copy);
            assert(forall|j: int| 0 <= j < i ==> sessions@[j] == before[j]);
            i += 1;
        }
        sessions
    }

    /// Makes an idle session with the given id for a project and stores it.
    pub fn register(
        &mut self,
        id: String,
        project_path: String,
        config: SessionConfig,
        now: u64,
    ) -> (session: Session)
        requires
            old(self).wf(),
        ensures
            final(self).wf(),
            session@ == fresh_session(id@, project_path@, config@, now),
            final(self)@ == old(self)@.insert(id@, session@),
    {
        let session = Session {
            id,
            project_path,
            status: SessionStatus::Idle,
            config,
            prd: None,
            current_iteration: 0,
            token_usage: TokenUsage::default(),
            created_at: now,
            updated_at: now,
        };
        let copy = session.clone();
        let _ = self.update_session(copy);
        session
    }

    /// Makes a session for a project under a new random id, provided the
    /// project's path exists and holds a git repository, as the caller found
    /// out. The session replaces one that had the same id.
    pub fn create_session(
        &mut self,
        project_path: String,
        config: SessionConfig,
        exists: bool,
        is_git_repository: bool,
        now: u64,
    ) -> (created: Result<Session, RalphError>)
        requires
            old(self).wf(),
        ensures
            final(self).wf(),
            match created {
                Ok(session) => {
                    &&& project_error(project_path@, exists, is_git_repository) is None
                    &&& is_random_id(session@.id)
                    &&& session@ == fresh_session(session@.id, project_path@, config@, now)
                    &&& final(self)@ == old(self)@.insert(session@.id, session@)
                },
                Err(error) => {
                    &&& project_error(project_path@, exists, is_git_repository) == Some(error@)
                    &&& final(self)@ == old(self)@
                },
            },
    {
        let id = fresh_id();
        match check_project(project_path.as_str(), exists, is_git_repository) {
            Ok(_) => {},
            Err(error) => {
                return Err(error);
            },
        }
        Ok(self.register(id, project_path, config, now))
    }

    /// Starts the session with the given id at time `now`: it then shows as
    /// running, with a placeholder in place of the story, before any story is
    /// picked.
    pub fn start_session(&mut self, id: &str, now: u64) -> (started: Result<Session, RalphError>)
        requires
            old(self).wf(),
        ensures
            final(self).wf(),
            match started {
                Ok(session) => {
                    &&& old(self)@.contains_key(id@)
                    &&& start_error(old(self)@[id@]) is None
                    &&& session@ == (SessionView {
                        status: starting_status(),
                        updated_at: now,
                        ..old(self)@[id@]
                    })
                    &&& final(self)@ == old(self)@.insert(id@, session@)
                },
                Err(error) => {
                    &&& final(self)@ == old(self)@
                    &&& if old(self)@.contains_key(id@) {
                        start_error(old(self)@[id@]) == Some(error@)
                    } else {
                        error@ == ErrorView::SessionNotFound(id@)
                    }
                },
            },
    {
        proof {
            self.ids_are_the_sessions();
        }
        let mut session = match self.get_session(id) {
            Ok(session) => session,
            Err(error) => {
                return Err(error);
            },
        };
        match check_start(&session) {
            Ok(_) => {},
            Err(error) => {
                return Err(error);
            },
        }
        session.status = SessionStatus::Running { story_id: String::from_str("initializing") };
        session.updated_at = now;
        let _ = self.update_session(session.clone());
        Ok(session)
    }

    /// Marks the session with the given id as paused, at time `now`. A loop
    /// that runs it sees this when it next polls.
    pub fn pause_session(&mut self, id: &str, now: u64) -> (paused: Result<Session, RalphError>)
        requires
            old(self).wf(),
        ensures
            final(self).wf(),
            match paused {
                Ok(session) => {
                    &&& old(self)@.contains_key(id@)
                    &&& session@ == (SessionView {
                        status: StatusView::Paused,
                        updated_at: now,
                        ..old(self)@[id@]
                    })
                    &&& final(self)@ == old(self)@.insert(id@, session@)
                },
                Err(error) => {
                    &&& !old(self)@.contains_key(id@)
                    &&& error@ == ErrorView::SessionNotFound(id@)
                    &&& final(self)@ == old(self)@
                },
            },
    {
        proof {
            self.ids_are_the_sessions();
        }
        let mut session = match self.get_session(id) {
            Ok(session) => session,
            Err(error) => {
                return Err(error);
            },
        };
        session.status = SessionStatus::Paused;
        session.updated_at = now;
        let _ = self.update_session(session.clone());
        Ok(session)
    }

    /// Marks the session with the given id as idle, at time `now`. A loop
    /// that runs it sees this when it next polls.
    pub fn stop_session(&mut self, id: &str, now: u64) -> (stopped: Result<Session, RalphError>)
        requires
            old(self).wf(),
        ensures
            final(self).wf(),
            match stopped {
                Ok(session) => {
                    &&& old(self)@.contains_key(id@)
                    &&& session@ == (SessionView {
                        status: StatusView::Idle,
                        updated_at: now,
                        ..old(self)@[id@]
                    })
                    &&& final(self)@ == old(self)@.insert(id@, session@)
                },
                Err(error) => {
                    &&& !old(self)@.contains_key(id@)
                    &&& error@ == ErrorView::SessionNotFound(id@)
                    &&& final(self)@ == old(self)@
                },
            },
    {
        proof {
            self.ids_are_the_sessions();
        }
        let mut session = match self.get_session(id) {
            Ok(session) => session,
            Err(error) => {
                return Err(error);
            },
        };
        session.status = SessionStatus::Idle;
        session.updated_at = now;
        let _ = self.update_session(session.clone());
        Ok(session)
    }

    /// Gives the session with the given id its requirements document, at time
    /// `now`.
    pub fn set_prd(&mut self, id: &str, prd: Prd, now: u64) -> (set: Result<Session, RalphError>)
        requires
            old(self).wf(),
        ensures
            final(self).wf(),
            match set {
                Ok(session) => {
                    &&& old(self)@.contains_key(id@)
                    &&& session@ == (SessionView {
                        prd: Some(prd@),
                        updated_at: now,
                        ..old(self)@[id@]
                    })
                    &&& final(self)@ == old(self)@.insert(id@, session@)
                },
                Err(error) => {
                    &&& !old(self)@.contains_key(id@)
                    &&& error@ == ErrorView::SessionNotFound(id@)
                    &&& final(self)@ == old(self)@
                },
            },
    {
        proof {
            self.ids_are_the_sessions();
        }
        let mut session = match self.get_session(id) {
            Ok(session) => session,
            Err(error) => {
                return Err(error);
            },
        };
        session.prd = Some(prd);
        session.updated_at = now;
        let _ = self.update_session(session.clone());
        Ok(session)
    }
}

} // verus!
