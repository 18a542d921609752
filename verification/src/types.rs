use vstd::prelude::*;
use vstd::string::StringExecFns;

verus! {

/// How close a context window is to its token budget.
#[derive(Debug, Clone, Copy, PartialEq, Eq, Structural)]
pub enum ContextHealth {
    Healthy,
    Warning,
    Critical,
}

impl ContextHealth {
    /// The lower-case name of a health level.
    pub open spec fn label(self) -> Seq<char> {
        match self {
            ContextHealth::Healthy => "healthy"@,
            ContextHealth::Warning => "warning"@,
            ContextHealth::Critical => "critical"@,
        }
    }

    /// The coloured-circle symbol of a health level.
    pub open spec fn symbol(self) -> Seq<char> {
        match self {
            ContextHealth::Healthy => "🟢"@,
            ContextHealth::Warning => "🟡"@,
            ContextHealth::Critical => "🔴"@,
        }
    }

    pub fn as_str(&self) -> (name: &'static str)
        ensures
            name@ == self.label(),
    {
        match self {
            ContextHealth::Healthy => "healthy",
            ContextHealth::Warning => "warning",
            ContextHealth::Critical => "critical",
        }
    }

    pub fn icon(&self) -> (symbol: &'static str)
        ensures
            symbol@ == self.symbol(),
    {
        match self {
            ContextHealth::Healthy => "🟢",
            ContextHealth::Warning => "🟡",
            ContextHealth::Critical => "🔴",
        }
    }
}

/// The health of a context window that has used `total` tokens, judged against
/// a warning threshold and a rotation threshold.
///
/// Usage and warning level are compared as exact shares of the rotation
/// threshold, usage capped at the whole: the window is healthy while the
/// capped usage is below the warning threshold, in warning while usage is below
/// the rotation threshold, and critical from there on.
pub open spec fn health_of(total: int, warn_threshold: int, rotate_threshold: int)
    -> ContextHealth {
    if total < warn_threshold || rotate_threshold < warn_threshold {
        ContextHealth::Healthy
    } else if total < rotate_threshold {
        ContextHealth::Warning
    } else {
        ContextHealth::Critical
    }
}

/// Token counters of one context window.
#[derive(Debug, Clone, Copy, PartialEq, Eq, Structural)]
pub struct TokenUsage {
    pub total: u32,
    pub read: u32,
    pub write: u32,
    pub assistant: u32,
    pub shell: u32,
}

impl TokenUsage {
    /// The all-zero counters of a fresh context window.
    pub open spec fn zero() -> TokenUsage {
        TokenUsage { total: 0, read: 0, write: 0, assistant: 0, shell: 0 }
    }

    /// What the counted activities have contributed: bytes read, bytes written
    /// and the estimates for shell calls.
    pub open spec fn contributions(self) -> int {
        self.read + self.write + self.shell
    }

    pub fn health(&self, warn_threshold: u32, rotate_threshold: u32) -> (health: ContextHealth)
        ensures
            health == health_of(self.total as int, warn_threshold as int, rotate_threshold as int),
    {
        if self.total < warn_threshold || rotate_threshold < warn_threshold {
            ContextHealth::Healthy
        } else if self.total < rotate_threshold {
            ContextHealth::Warning
        } else {
            ContextHealth::Critical
        }
    }
}

impl Default for TokenUsage {
    fn default() -> (usage: TokenUsage)
        ensures
            usage == TokenUsage::zero(),
    {
        TokenUsage { total: 0, read: 0, write: 0, assistant: 0, shell: 0 }
    }
}

/// With the warning threshold no higher than the rotation threshold, a window
/// is healthy exactly below the warning threshold, critical exactly from the
/// rotation threshold on, and in warning in between. In particular a total
/// equal to the warning threshold is not healthy, and a total equal to the
/// rotation threshold is critical.
pub proof fn health_follows_thresholds(usage: TokenUsage, warn_threshold: u32, rotate_threshold: u32)
    requires
        warn_threshold <= rotate_threshold,
    ensures
        health_of(usage.total as int, warn_threshold as int, rotate_threshold as int)
            == ContextHealth::Healthy <==> usage.total < warn_threshold,
        health_of(usage.total as int, warn_threshold as int, rotate_threshold as int)
            == ContextHealth::Critical <==> usage.total >= rotate_threshold,
        health_of(usage.total as int, warn_threshold as int, rotate_threshold as int)
            == ContextHealth::Warning <==> warn_threshold <= usage.total < rotate_threshold,
        usage.total == warn_threshold ==> health_of(
            usage.total as int,
            warn_threshold as int,
            rotate_threshold as int,
        ) != ContextHealth::Healthy,
        usage.total == rotate_threshold ==> health_of(
            usage.total as int,
            warn_threshold as int,
            rotate_threshold as int,
        ) == ContextHealth::Critical,
{
}

/// A control signal derived from agent activity.
#[derive(Debug, PartialEq, Eq)]
pub enum Signal {
    Warn,
    Rotate,
    Gutter(String),
    Complete,
    StoryComplete(String),
}

/// A signal with its texts as character sequences.
pub enum SignalView {
    Warn,
    Rotate,
    Gutter(Seq<char>),
    Complete,
    StoryComplete(Seq<char>),
}

impl View for Signal {
    type V = SignalView;

    open spec fn view(&self) -> SignalView {
        match *self {
            Signal::Warn => SignalView::Warn,
            Signal::Rotate => SignalView::Rotate,
            Signal::Gutter(reason) => SignalView::Gutter(reason@),
            Signal::Complete => SignalView::Complete,
            Signal::StoryComplete(id) => SignalView::StoryComplete(id@),
        }
    }
}

impl Clone for Signal {
    fn clone(&self) -> (copy: Signal)
        ensures
            copy == *self,
    {
        match self {
            Signal::Warn => Signal::Warn,
            Signal::Rotate => Signal::Rotate,
            Signal::Gutter(reason) => Signal::Gutter(reason.clone()),
            Signal::Complete => Signal::Complete,
            Signal::StoryComplete(id) => Signal::StoryComplete(id.clone()),
        }
    }
}

/// What the agent did, as one typed event.
#[derive(Debug, PartialEq, Eq)]
pub enum ActivityKind {
    Read { path: String, lines: u32, bytes: u32 },
    Write { path: String, lines: u32, bytes: u32 },
    Shell { command: String, exit_code: i32 },
    TokenUpdate(TokenUsage),
    Signal(Signal),
    Error(String),
}

/// An activity with its texts as character sequences.
pub enum KindView {
    Read { path: Seq<char>, lines: u32, bytes: u32 },
    Write { path: Seq<char>, lines: u32, bytes: u32 },
    Shell { command: Seq<char>, exit_code: i32 },
    TokenUpdate(TokenUsage),
    Signal(SignalView),
    Error(Seq<char>),
}

impl View for ActivityKind {
    type V = KindView;

    open spec fn view(&self) -> KindView {
        match *self {
            ActivityKind::Read { path, lines, bytes } => KindView::Read { path: path@, lines, bytes },
            ActivityKind::Write { path, lines, bytes } => KindView::Write {
                path: path@,
                lines,
                bytes,
            },
            ActivityKind::Shell { command, exit_code } => KindView::Shell {
                command: command@,
                exit_code,
            },
            ActivityKind::TokenUpdate(usage) => KindView::TokenUpdate(usage),
            ActivityKind::Signal(signal) => KindView::Signal(signal@),
            ActivityKind::Error(message) => KindView::Error(message@),
        }
    }
}

impl Clone for ActivityKind {
    fn clone(&self) -> (copy: ActivityKind)
        ensures
            copy == *self,
    {
        match self {
            ActivityKind::Read { path, lines, bytes } => ActivityKind::Read {
                path: path.clone(),
                lines: *lines,
                bytes: *bytes,
            },
            ActivityKind::Write { path, lines, bytes } => ActivityKind::Write {
                path: path.clone(),
                lines: *lines,
                bytes: *bytes,
            },
            ActivityKind::Shell { command, exit_code } => ActivityKind::Shell {
                command: command.clone(),
                exit_code: *exit_code,
            },
            ActivityKind::TokenUpdate(usage) => ActivityKind::TokenUpdate(*usage),
            ActivityKind::Signal(signal) => ActivityKind::Signal(signal.clone()),
            ActivityKind::Error(message) => ActivityKind::Error(message.clone()),
        }
    }
}

/// One activity event as broadcast to subscribers. `timestamp` is in
/// milliseconds since the Unix epoch.
#[derive(Debug, PartialEq, Eq)]
pub struct ActivityEntry {
    pub timestamp: u64,
    pub iteration: u32,
    pub kind: ActivityKind,
    pub health: ContextHealth,
}

/// An activity entry with its texts as character sequences.
pub struct EntryView {
    pub timestamp: u64,
    pub iteration: u32,
    pub kind: KindView,
    pub health: ContextHealth,
}

impl View for ActivityEntry {
    type V = EntryView;

    open spec fn view(&self) -> EntryView {
        EntryView {
            timestamp: self.timestamp,
            iteration: self.iteration,
            kind: self.kind@,
            health: self.health,
        }
    }
}

impl Clone for ActivityEntry {
    fn clone(&self) -> (copy: ActivityEntry)
        ensures
            copy == *self,
    {
        ActivityEntry {
            timestamp: self.timestamp,
            iteration: self.iteration,
            kind: self.kind.clone(),
            health: self.health,
        }
    }
}

/// How one iteration of the run loop ended.
#[derive(Debug, PartialEq, Eq)]
pub enum IterationResult {
    StoryComplete,
    Rotate,
    Gutter(String),
}

/// An iteration result with its text as a character sequence.
pub enum ResultView {
    StoryComplete,
    Rotate,
    Gutter(Seq<char>),
}

impl View for IterationResult {
    type V = ResultView;

    open spec fn view(&self) -> ResultView {
        match *self {
            IterationResult::StoryComplete => ResultView::StoryComplete,
            IterationResult::Rotate => ResultView::Rotate,
            IterationResult::Gutter(reason) => ResultView::Gutter(reason@),
        }
    }
}

impl Clone for IterationResult {
    fn clone(&self) -> (copy: IterationResult)
        ensures
            copy == *self,
    {
        match self {
            IterationResult::StoryComplete => IterationResult::StoryComplete,
            IterationResult::Rotate => IterationResult::Rotate,
            IterationResult::Gutter(reason) => IterationResult::Gutter(reason.clone()),
        }
    }
}

/// The character sequences of a list of strings.
pub open spec fn text_views(texts: Seq<String>) -> Seq<Seq<char>> {
    Seq::new(texts.len(), |i: int| texts[i]@)
}

/// The character sequence of an optional string.
pub open spec fn optional_text(text: Option<String>) -> Option<Seq<char>> {
    match text {
        Some(text) => Some(text@),
        None => None,
    }
}

/// A copy of a list of strings.
pub fn clone_texts(texts: &Vec<String>) -> (copy: Vec<String>)
    ensures
        text_views(copy@) == text_views(texts@),
{
    let mut copy: Vec<String> = Vec::new();
    let mut i: usize = 0;
    while i < texts.len()
        invariant
            i <= texts.len(),
            copy@.len() == i,
            forall|j: int| 0 <= j < i ==> copy@[j]@ == texts@[j]@,
        decreases texts.len() - i,
    {
        copy.push(texts[i].clone());
        i += 1;
    }
    assert(text_views(copy@) =~= text_views(texts@));
    copy
}

/// A copy of an optional string.
pub fn clone_optional_text(text: &Option<String>) -> (copy: Option<String>)
    ensures
        optional_text(copy) == optional_text(*text),
{
    match text {
        Some(text) => Some(text.clone()),
        None => None,
    }
}

/// One unit of work of a requirements document.
#[derive(Debug, PartialEq, Eq)]
pub struct Story {
    pub id: String,
    pub title: String,
    pub description: String,
    pub acceptance_criteria: Vec<String>,
    pub priority: u32,
    pub passes: bool,
    pub notes: String,
}

/// A story with its texts as character sequences.
pub struct StoryView {
    pub id: Seq<char>,
    pub title: Seq<char>,
    pub description: Seq<char>,
    pub acceptance_criteria: Seq<Seq<char>>,
    pub priority: u32,
    pub passes: bool,
    pub notes: Seq<char>,
}

impl View for Story {
    type V = StoryView;

    open spec fn view(&self) -> StoryView {
        StoryView {
            id: self.id@,
            title: self.title@,
            description: self.description@,
            acceptance_criteria: text_views(self.acceptance_criteria@),
            priority: self.priority,
            passes: self.passes,
            notes: self.notes@,
        }
    }
}

impl Clone for Story {
    fn clone(&self) -> (copy: Story)
        ensures
            copy@ == self@,
    {
        Story {
            id: self.id.clone(),
            title: self.title.clone(),
            description: self.description.clone(),
            acceptance_criteria: clone_texts(&self.acceptance_criteria),
            priority: self.priority,
            passes: self.passes,
            notes: self.notes.clone(),
        }
    }
}

/// The views of a list of stories.
pub open spec fn story_views(stories: Seq<Story>) -> Seq<StoryView> {
    Seq::new(stories.len(), |i: int| stories[i]@)
}

/// A requirements document: the ordered backlog a session works through.
#[derive(Debug, PartialEq, Eq)]
pub struct Prd {
    pub project: String,
    pub branch_name: String,
    pub description: String,
    pub stories: Vec<Story>,
}

/// A requirements document with its texts as character sequences.
pub struct PrdView {
    pub project: Seq<char>,
    pub branch_name: Seq<char>,
    pub description: Seq<char>,
    pub stories: Seq<StoryView>,
}

impl View for Prd {
    type V = PrdView;

    open spec fn view(&self) -> PrdView {
        PrdView {
            project: self.project@,
            branch_name: self.branch_name@,
            description: self.description@,
            stories: story_views(self.stories@),
        }
    }
}

impl Clone for Prd {
    fn clone(&self) -> (copy: Prd)
        ensures
            copy@ == self@,
    {
        let mut stories: Vec<Story> = Vec::new();
        let mut i: usize = 0;
        while i < self.stories.len()
            invariant
                i <= self.stories.len(),
                stories@.len() == i,
                forall|j: int| 0 <= j < i ==> stories@[j]@ == self.stories@[j]@,
            decreases self.stories.len() - i,
        {
            stories.push(self.stories[i].clone());
            i += 1;
        }
        assert(story_views(stories@) =~= story_views(self.stories@));
        Prd {
            project: self.project.clone(),
            branch_name: self.branch_name.clone(),
            description: self.description.clone(),
            stories,
        }
    }
}

/// The view of an optional requirements document.
pub open spec fn optional_prd(prd: Option<Prd>) -> Option<PrdView> {
    match prd {
        Some(prd) => Some(prd@),
        None => None,
    }
}

/// Where a session stands.
#[derive(Debug, PartialEq, Eq)]
pub enum SessionStatus {
    Idle,
    Running { story_id: String },
    Paused,
    WaitingForRotation,
    Gutter { reason: String },
    Complete,
    Failed { error: String },
}

/// A session status with its texts as character sequences.
pub enum StatusView {
    Idle,
    Running { story_id: Seq<char> },
    Paused,
    WaitingForRotation,
    Gutter { reason: Seq<char> },
    Complete,
    Failed { error: Seq<char> },
}

impl View for SessionStatus {
    type V = StatusView;

    open spec fn view(&self) -> StatusView {
        match *self {
            SessionStatus::Idle => StatusView::Idle,
            SessionStatus::Running { story_id } => StatusView::Running { story_id: story_id@ },
            SessionStatus::Paused => StatusView::Paused,
            SessionStatus::WaitingForRotation => StatusView::WaitingForRotation,
            SessionStatus::Gutter { reason } => StatusView::Gutter { reason: reason@ },
            SessionStatus::Complete => StatusView::Complete,
            SessionStatus::Failed { error } => StatusView::Failed { error: error@ },
        }
    }
}

impl Clone for SessionStatus {
    fn clone(&self) -> (copy: SessionStatus)
        ensures
            copy@ == self@,
    {
        match self {
            SessionStatus::Idle => SessionStatus::Idle,
            SessionStatus::Running { story_id } => SessionStatus::Running {
                story_id: story_id.clone(),
            },
            SessionStatus::Paused => SessionStatus::Paused,
            SessionStatus::WaitingForRotation => SessionStatus::WaitingForRotation,
            SessionStatus::Gutter { reason } => SessionStatus::Gutter { reason: reason.clone() },
            SessionStatus::Complete => SessionStatus::Complete,
            SessionStatus::Failed { error } => SessionStatus::Failed { error: error.clone() },
        }
    }
}

/// What a session is run with. `warn_threshold` is meant to lie below
/// `rotate_threshold`.
#[derive(Debug, PartialEq, Eq)]
pub struct SessionConfig {
    pub prd_model: String,
    pub execution_model: String,
    pub max_iterations: u32,
    pub warn_threshold: u32,
    pub rotate_threshold: u32,
    pub branch_name: Option<String>,
    pub open_pr: bool,
}

/// A session configuration with its texts as character sequences.
pub struct ConfigView {
    pub prd_model: Seq<char>,
    pub execution_model: Seq<char>,
    pub max_iterations: u32,
    pub warn_threshold: u32,
    pub rotate_threshold: u32,
    pub branch_name: Option<Seq<char>>,
    pub open_pr: bool,
}

impl ConfigView {
    /// Whether the thresholds are as they are meant to be: the warning
    /// threshold below the rotation threshold.
    pub open spec fn thresholds_in_order(self) -> bool {
        self.warn_threshold < self.rotate_threshold
    }
}

impl View for SessionConfig {
    type V = ConfigView;

    open spec fn view(&self) -> ConfigView {
        ConfigView {
            prd_model: self.prd_model@,
            execution_model: self.execution_model@,
            max_iterations: self.max_iterations,
            warn_threshold: self.warn_threshold,
            rotate_threshold: self.rotate_threshold,
            branch_name: optional_text(self.branch_name),
            open_pr: self.open_pr,
        }
    }
}

impl Clone for SessionConfig {
    fn clone(&self) -> (copy: SessionConfig)
        ensures
            copy@ == self@,
    {
        SessionConfig {
            prd_model: self.prd_model.clone(),
            execution_model: self.execution_model.clone(),
            max_iterations: self.max_iterations,
            warn_threshold: self.warn_threshold,
            rotate_threshold: self.rotate_threshold,
            branch_name: clone_optional_text(&self.branch_name),
            open_pr: self.open_pr,
        }
    }
}

impl Default for SessionConfig {
    /// Twenty iterations at most, a warning at 70 000 tokens and rotation at
    /// 80 000, no branch of its own and no pull request.
    fn default() -> (config: SessionConfig)
        ensures
            config@ == (ConfigView {
                prd_model: "opus-4.5-thinking"@,
                execution_model: "opus-4.5-thinking"@,
                max_iterations: 20,
                warn_threshold: 70_000,
                rotate_threshold: 80_000,
                branch_name: None,
                open_pr: false,
            }),
    {
        SessionConfig {
            prd_model: String::from_str("opus-4.5-thinking"),
            execution_model: String::from_str("opus-4.5-thinking"),
            max_iterations: 20,
            warn_threshold: 70_000,
            rotate_threshold: 80_000,
            branch_name: None,
            open_pr: false,
        }
    }
}

/// One agent session on one project. Times are in milliseconds since the
/// Unix epoch.
#[derive(Debug, PartialEq, Eq)]
pub struct Session {
    pub id: String,
    pub project_path: String,
    pub status: SessionStatus,
    pub config: SessionConfig,
    pub prd: Option<Prd>,
    pub current_iteration: u32,
    pub token_usage: TokenUsage,
    pub created_at: u64,
    pub updated_at: u64,
}

/// A session with its texts as character sequences.
pub struct SessionView {
    pub id: Seq<char>,
    pub project_path: Seq<char>,
    pub status: StatusView,
    pub config: ConfigView,
    pub prd: Option<PrdView>,
    pub current_iteration: u32,
    pub token_usage: TokenUsage,
    pub created_at: u64,
    pub updated_at: u64,
}

impl View for Session {
    type V = SessionView;

    open spec fn view(&self) -> SessionView {
        SessionView {
            id: self.id@,
            project_path: self.project_path@,
            status: self.status@,
            config: self.config@,
            prd: optional_prd(self.prd),
            current_iteration: self.current_iteration,
            token_usage: self.token_usage,
            created_at: self.created_at,
            updated_at: self.updated_at,
        }
    }
}

impl Clone for Session {
    fn clone(&self) -> (copy: Session)
        ensures
            copy@ == self@,
    {
        Session {
            id: self.id.clone(),
            project_path: self.project_path.clone(),
            status: self.status.clone(),
            config: self.config.clone(),
            prd: match &self.prd {
                Some(prd) => Some(prd.clone()),
                None => None,
            },
            current_iteration: self.current_iteration,
            token_usage: self.token_usage,
            created_at: self.created_at,
            updated_at: self.updated_at,
        }
    }
}

/// A lesson from an earlier iteration that is put into later prompts.
#[derive(Debug, PartialEq, Eq)]
pub struct Guardrail {
    pub id: String,
    pub title: String,
    pub trigger: String,
    pub instruction: String,
    pub added_after: String,
}

impl Clone for Guardrail {
    fn clone(&self) -> (copy: Guardrail)
        ensures
            copy == *self,
    {
        Guardrail {
            id: self.id.clone(),
            title: self.title.clone(),
            trigger: self.trigger.clone(),
            instruction: self.instruction.clone(),
            added_after: self.added_after.clone(),
        }
    }
}

/// What went wrong, by the part of the system that failed.
#[derive(Debug, PartialEq, Eq)]
pub enum RalphError {
    Io(String),
    Git(String),
    CursorAgent(String),
    Parse(String),
    SessionNotFound(String),
    InvalidState(String),
}

/// An error with its text as a character sequence.
pub enum ErrorView {
    Io(Seq<char>),
    Git(Seq<char>),
    CursorAgent(Seq<char>),
    Parse(Seq<char>),
    SessionNotFound(Seq<char>),
    InvalidState(Seq<char>),
}

impl ErrorView {
    /// The line that describes the error to a reader.
    pub open spec fn text(self) -> Seq<char> {
        match self {
            ErrorView::Io(detail) => "IO error: "@ + detail,
            ErrorView::Git(detail) => "Git error: "@ + detail,
            ErrorView::CursorAgent(detail) => "Cursor agent error: "@ + detail,
            ErrorView::Parse(detail) => "Parse error: "@ + detail,
            ErrorView::SessionNotFound(id) => "Session not found: "@ + id,
            ErrorView::InvalidState(detail) => "Invalid session state: "@ + detail,
        }
    }
}

impl View for RalphError {
    type V = ErrorView;

    open spec fn view(&self) -> ErrorView {
        match *self {
            RalphError::Io(detail) => ErrorView::Io(detail@),
            RalphError::Git(detail) => ErrorView::Git(detail@),
            RalphError::CursorAgent(detail) => ErrorView::CursorAgent(detail@),
            RalphError::Parse(detail) => ErrorView::Parse(detail@),
            RalphError::SessionNotFound(id) => ErrorView::SessionNotFound(id@),
            RalphError::InvalidState(detail) => ErrorView::InvalidState(detail@),
        }
    }
}

impl Clone for RalphError {
    fn clone(&self) -> (copy: RalphError)
        ensures
            copy == *self,
    {
        match self {
            RalphError::Io(detail) => RalphError::Io(detail.clone()),
            RalphError::Git(detail) => RalphError::Git(detail.clone()),
            RalphError::CursorAgent(detail) => RalphError::CursorAgent(detail.clone()),
            RalphError::Parse(detail) => RalphError::Parse(detail.clone()),
            RalphError::SessionNotFound(id) => RalphError::SessionNotFound(id.clone()),
            RalphError::InvalidState(detail) => RalphError::InvalidState(detail.clone()),
        }
    }
}

impl RalphError {
    /// The line that describes the error to a reader.
    pub fn message(&self) -> (text: String)
        ensures
            text@ == self@.text(),
    {
        let (mut text, detail) = match self {
            RalphError::Io(detail) => (String::from_str("IO error: "), detail),
            RalphError::Git(detail) => (String::from_str("Git error: "), detail),
            RalphError::CursorAgent(detail) => (String::from_str("Cursor agent error: "), detail),
            RalphError::Parse(detail) => (String::from_str("Parse error: "), detail),
            RalphError::SessionNotFound(id) => (String::from_str("Session not found: "), id),
            RalphError::InvalidState(detail) => (
                String::from_str("Invalid session state: "),
                detail,
            ),
        };
        text.append(detail.as_str());
        text
    }
}

} // verus!
