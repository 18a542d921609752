use crate::clock::now_millis;
use crate::table::TextMap;
use crate::text::{decimal, push_decimal};
use crate::types::{
    health_of, ActivityEntry, ActivityKind, EntryView, KindView, Signal, SignalView, TokenUsage,
};
use vstd::prelude::*;
use vstd::string::StringExecFns;

verus! {

/// Tokens charged for one shell call.
pub const SHELL_TOKEN_ESTIMATE: u32 = 100;

/// Length of the window in which writes to one file count as thrashing, in
/// milliseconds.
pub const THRASH_WINDOW_MILLIS: u64 = 600_000;

/// Failures of one command that mean the agent is stuck, unless set otherwise.
pub const DEFAULT_FAIL_COUNT: u32 = 3;

/// Writes to one file within the window that mean the agent is stuck, unless
/// set otherwise.
pub const DEFAULT_THRASH_COUNT: u32 = 5;

/// Whether a write at time `t` still counts at time `now`: it does while less
/// than the length of the window has passed since.
pub open spec fn in_window(t: u64, now: u64) -> bool {
    now < t + THRASH_WINDOW_MILLIS
}

/// The write times that still count at time `now`, in order.
pub open spec fn within_window(times: Seq<u64>, now: u64) -> Seq<u64> {
    times.filter(|t: u64| in_window(t, now))
}

/// The text of the signal for a command that keeps failing.
pub open spec fn failure_text(count: u32, command: Seq<char>) -> Seq<char> {
    "Command failed "@ + decimal(count as nat) + " times: "@ + command
}

/// The text of the signal for a file that is written over and over.
pub open spec fn thrash_text(path: Seq<char>, writes: nat) -> Seq<char> {
    "File thrashing detected: "@ + path + " ("@ + decimal(writes) + " writes in 10min)"@
}

/// The views of an optional signal.
pub open spec fn signal_view(signal: Option<Signal>) -> Option<SignalView> {
    match signal {
        Some(signal) => Some(signal@),
        None => None,
    }
}

/// What a stream parser knows: its thresholds, the token counters, how often
/// each command has failed and when each file was written.
pub struct ParserModel {
    pub iteration: u32,
    pub usage: TokenUsage,
    pub warn_threshold: u32,
    pub rotate_threshold: u32,
    pub failures: Map<Seq<char>, u32>,
    pub writes: Map<Seq<char>, Seq<u64>>,
    pub fail_count: u32,
    pub thrash_count: u32,
}

impl ParserModel {
    /// How often `command` has failed so far.
    pub open spec fn failures_of(self, command: Seq<char>) -> u32 {
        if self.failures.contains_key(command) {
            self.failures[command]
        } else {
            0
        }
    }

    /// The remembered write times of `path`.
    pub open spec fn writes_of(self, path: Seq<char>) -> Seq<u64> {
        if self.writes.contains_key(path) {
            self.writes[path]
        } else {
            Seq::empty()
        }
    }

    /// The write times of `path` once a write at `now` is recorded: the new
    /// time is added, then what has left the window is forgotten.
    pub open spec fn writes_after(self, path: Seq<char>, now: u64) -> Seq<u64> {
        within_window(self.writes_of(path).push(now), now)
    }

    /// Whether the token counters can take `kind` without exceeding a `u32`:
    /// the total, and the counter of the kind.
    pub open spec fn tokens_fit(self, kind: KindView) -> bool {
        match kind {
            KindView::Read { bytes, .. } => {
                &&& self.usage.read + bytes <= u32::MAX
                &&& self.usage.total + bytes <= u32::MAX
            },
            KindView::Write { bytes, .. } => {
                &&& self.usage.write + bytes <= u32::MAX
                &&& self.usage.total + bytes <= u32::MAX
            },
            KindView::Shell { .. } => {
                &&& self.usage.shell + SHELL_TOKEN_ESTIMATE <= u32::MAX
                &&& self.usage.total + SHELL_TOKEN_ESTIMATE <= u32::MAX
            },
            _ => true,
        }
    }

    /// Whether the count of failures can take `kind` without exceeding a
    /// `u32`.
    pub open spec fn failures_fit(self, kind: KindView) -> bool {
        match kind {
            KindView::Shell { command, exit_code } => exit_code != 0 ==> self.failures_of(command)
                < u32::MAX,
            _ => true,
        }
    }

    /// Whether the counters can take `kind` without exceeding a `u32`.
    pub open spec fn fits(self, kind: KindView) -> bool {
        self.tokens_fit(kind) && self.failures_fit(kind)
    }

    /// The token counters after `kind`: bytes read and written and a fixed
    /// estimate per shell call go to their own counter and to the total.
    pub open spec fn usage_after(self, kind: KindView) -> TokenUsage {
        match kind {
            KindView::Read { bytes, .. } => TokenUsage {
                read: (self.usage.read + bytes) as u32,
                total: (self.usage.total + bytes) as u32,
                ..self.usage
            },
            KindView::Write { bytes, .. } => TokenUsage {
                write: (self.usage.write + bytes) as u32,
                total: (self.usage.total + bytes) as u32,
                ..self.usage
            },
            KindView::Shell { .. } => TokenUsage {
                shell: (self.usage.shell + SHELL_TOKEN_ESTIMATE) as u32,
                total: (self.usage.total + SHELL_TOKEN_ESTIMATE) as u32,
                ..self.usage
            },
            _ => self.usage,
        }
    }

    /// The state after `kind` was seen at time `now`. A failed shell call
    /// counts against its command, and the count is never reset; a write is
    /// remembered for its path.
    pub open spec fn after(self, kind: KindView, now: u64) -> ParserModel {
        ParserModel {
            usage: self.usage_after(kind),
            failures: match kind {
                KindView::Shell { command, exit_code } if exit_code != 0 => self.failures.insert(
                    command,
                    (self.failures_of(command) + 1) as u32,
                ),
                _ => self.failures,
            },
            writes: match kind {
                KindView::Write { path, .. } => self.writes.insert(
                    path,
                    self.writes_after(path, now),
                ),
                _ => self.writes,
            },
            ..self
        }
    }

    /// The reason to call the agent stuck on `kind`, if there is one: a
    /// command whose failures reach the failure count, or a file whose writes
    /// within the window reach the thrash count.
    pub open spec fn gutter(self, kind: KindView, now: u64) -> Option<Seq<char>> {
        match kind {
            KindView::Shell { command, exit_code } if exit_code != 0 => {
                if self.failures_of(command) + 1 >= self.fail_count {
                    Some(failure_text((self.failures_of(command) + 1) as u32, command))
                } else {
                    None
                }
            },
            KindView::Write { path, .. } => {
                if self.writes_after(path, now).len() >= self.thrash_count {
                    Some(thrash_text(path, self.writes_after(path, now).len()))
                } else {
                    None
                }
            },
            _ => None,
        }
    }

    /// The one signal that `kind` raises at time `now`, if any: a gutter
    /// signal first, else rotation once the total has reached the rotation
    /// threshold, else a warning once it has reached the warning threshold.
    pub open spec fn signal(self, kind: KindView, now: u64) -> Option<SignalView> {
        match self.gutter(kind, now) {
            Some(reason) => Some(SignalView::Gutter(reason)),
            None => {
                if self.usage_after(kind).total >= self.rotate_threshold {
                    Some(SignalView::Rotate)
                } else if self.usage_after(kind).total >= self.warn_threshold {
                    Some(SignalView::Warn)
                } else {
                    None
                }
            },
        }
    }

    /// The entry that reports `kind` seen at time `now`, with the health of
    /// the counters after it.
    pub open spec fn entry(self, kind: KindView, now: u64) -> EntryView {
        EntryView {
            timestamp: now,
            iteration: self.iteration,
            kind,
            health: health_of(
                self.usage_after(kind).total as int,
                self.warn_threshold as int,
                self.rotate_threshold as int,
            ),
        }
    }
}

spec fn time_lists(writes: Map<Seq<char>, Vec<u64>>) -> Map<Seq<char>, Seq<u64>> {
    writes.map_values(|times: Vec<u64>| times@)
}

fn failure_message(count: u32, command: &str) -> (message: String)
    ensures
        message@ == failure_text(count, command@),
{
    let mut message = String::from_str("Command failed ");
    push_decimal(&mut message, count as u64);
    message.append(" times: ");
    message.append(command);
    message
}

fn thrash_message(path: &str, writes: usize) -> (message: String)
    ensures
        message@ == thrash_text(path@, writes as nat),
{
    let mut message = String::from_str("File thrashing detected: ");
    message.append(path);
    message.append(" (");
    push_decimal(&mut message, writes as u64);
    message.append(" writes in 10min)");
    message
}

/// Filtering by the window goes through a sequence one time after the other.
pub proof fn window_of_push(times: Seq<u64>, t: u64, now: u64)
    ensures
        within_window(times.push(t), now) == if in_window(t, now) {
            within_window(times, now).push(t)
        } else {
            within_window(times, now)
        },
        within_window(Seq::empty(), now) == Seq::<u64>::empty(),
{
    reveal(Seq::filter);
    assert(times.push(t).drop_last() =~= times);
}

/// The times of `known` and `now` that lie in the window ending at `now`.
fn record_write(known: Option<&Vec<u64>>, now: u64) -> (kept: Vec<u64>)
    ensures
        kept@ == within_window(
            match known {
                Some(times) => times@,
                None => Seq::empty(),
            }.push(now),
            now,
        ),
{
    let ghost old_times: Seq<u64> = match known {
        Some(times) => times@,
        None => Seq::empty(),
    };
    let mut kept: Vec<u64> = Vec::new();
    proof {
        window_of_push(Seq::empty(), now, now);
        assert(old_times.take(0) =~= Seq::<u64>::empty());
    }
    if let Some(times) = known {
        let mut i: usize = 0;
        while i < times.len()
            invariant
                i <= times.len(),
                times@ == old_times,
                kept@ == within_window(old_times.take(i as int), now),
            decreases times.len() - i,
        {
            proof {
                window_of_push(old_times.take(i as int), old_times[i as int], now);
                assert(old_times.take(i + 1) =~= old_times.take(i as int).push(old_times[i as int]));
            }
            if now < THRASH_WINDOW_MILLIS || times[i] > now - THRASH_WINDOW_MILLIS {
                kept.push(times[i]);
            }
            i += 1;
        }
        assert(old_times.take(times.len() as int) =~= old_times);
    }
    proof {
        window_of_push(old_times, now, now);
    }
    kept.push(now);
    kept
}

/// Follows the activity of one iteration: counts tokens, notices when the
/// agent is stuck and says when the context should be warned about or rotated.
pub struct StreamParser {
    iteration: u32,
    token_usage: TokenUsage,
    warn_threshold: u32,
    rotate_threshold: u32,
    command_failures: TextMap<u32>,
    file_writes: TextMap<Vec<u64>>,
    gutter_fail_count: u32,
    gutter_thrash_count: u32,
}

impl View for StreamParser {
    type V = ParserModel;

    closed spec fn view(&self) -> ParserModel {
        ParserModel {
            iteration: self.iteration,
            usage: self.token_usage,
            warn_threshold: self.warn_threshold,
            rotate_threshold: self.rotate_threshold,
            failures: self.command_failures@,
            writes: time_lists(self.file_writes@),
            fail_count: self.gutter_fail_count,
            thrash_count: self.gutter_thrash_count,
        }
    }
}

impl StreamParser {
    /// The parser's records are in order: each command and each path is
    /// recorded once.
    pub closed spec fn wf(&self) -> bool {
        self.command_failures.wf() && self.file_writes.wf()
    }

    /// A parser for iteration number `iteration` that starts from the given
    /// counters, has seen no failure and no write, and uses the default
    /// gutter counts.
    pub fn new(
        iteration: u32,
        token_usage: TokenUsage,
        warn_threshold: u32,
        rotate_threshold: u32,
    ) -> (parser: StreamParser)
        ensures
            parser.wf(),
            parser@ == (ParserModel {
                iteration,
                usage: token_usage,
                warn_threshold,
                rotate_threshold,
                failures: Map::empty(),
                writes: Map::empty(),
                fail_count: DEFAULT_FAIL_COUNT,
                thrash_count: DEFAULT_THRASH_COUNT,
            }),
    {
        let parser = StreamParser {
            iteration,
            token_usage,
            warn_threshold,
            rotate_threshold,
            command_failures: TextMap::new(),
            file_writes: TextMap::new(),
            gutter_fail_count: DEFAULT_FAIL_COUNT,
            gutter_thrash_count: DEFAULT_THRASH_COUNT,
        };
        assert(time_lists(parser.file_writes@) =~= Map::<Seq<char>, Seq<u64>>::empty());
        parser
    }

    /// Sets how many failures of one command, and how many writes to one file
    /// within the window, mean that the agent is stuck.
    pub fn set_gutter_counts(&mut self, fail_count: u32, thrash_count: u32)
        requires
            old(self).wf(),
        ensures
            final(self).wf(),
            final(self)@ == (ParserModel { fail_count, thrash_count, ..old(self)@ }),
    {
        self.gutter_fail_count = fail_count;
        self.gutter_thrash_count = thrash_count;
    }

    /// Whether `kind` can be counted without a counter exceeding a `u32`.
    pub fn accepts(&self, kind: &ActivityKind) -> (fits: bool)
        requires
            self.wf(),
        ensures
            fits == self@.fits(kind@),
    {
        match kind {
            ActivityKind::Read { bytes, .. } => {
                *bytes <= u32::MAX - self.token_usage.read && *bytes <= u32::MAX
                    - self.token_usage.total
            },
            ActivityKind::Write { bytes, .. } => {
                *bytes <= u32::MAX - self.token_usage.write && *bytes <= u32::MAX
                    - self.token_usage.total
            },
            ActivityKind::Shell { command, exit_code } => {
                if SHELL_TOKEN_ESTIMATE > u32::MAX - self.token_usage.shell {
                    false
                } else if SHELL_TOKEN_ESTIMATE > u32::MAX - self.token_usage.total {
                    false
                } else if *exit_code != 0 {
                    match self.command_failures.get(command.as_str()) {
                        Some(count) => *count < u32::MAX,
                        None => true,
                    }
                } else {
                    true
                }
            },
            _ => true,
        }
    }

    /// Takes in one activity seen at time `now` (milliseconds since the Unix
    /// epoch): updates the counters and the gutter records, and returns the
    /// entry to broadcast together with the signal the activity raises.
    pub fn parse_activity_at(&mut self, kind: ActivityKind, now: u64) -> (outcome: (
        ActivityEntry,
        Option<Signal>,
    ))
        requires
            old(self).wf(),
            old(self)@.fits(kind@),
        ensures
            final(self).wf(),
            final(self)@ == old(self)@.after(kind@, now),
            outcome.0@ == old(self)@.entry(kind@, now),
            signal_view(outcome.1) == old(self)@.signal(kind@, now),
    {
        let ghost before = self@;
        match &kind {
            ActivityKind::Read { bytes, .. } => {
                self.token_usage.read = self.token_usage.read + *bytes;
                self.token_usage.total = self.token_usage.total + *bytes;
            },
            ActivityKind::Write { bytes, .. } => {
                self.token_usage.write = self.token_usage.write + *bytes;
                self.token_usage.total = self.token_usage.total + *bytes;
            },
            ActivityKind::Shell { .. } => {
                self.token_usage.shell = self.token_usage.shell + SHELL_TOKEN_ESTIMATE;
                self.token_usage.total = self.token_usage.total + SHELL_TOKEN_ESTIMATE;
            },
            _ => {},
        }
        assert(self.token_usage == before.usage_after(kind@));

        let mut signal: Option<Signal> = None;
        match &kind {
            ActivityKind::Shell { command, exit_code } => {
                if *exit_code != 0 {
                    let count: u32 = match self.command_failures.get(command.as_str()) {
                        Some(count) => *count + 1,
                        None => 1,
                    };
                    self.command_failures.insert(command.clone(), count);
                    if count >= self.gutter_fail_count {
                        signal = Some(Signal::Gutter(failure_message(count, command.as_str())));
                    }
                }
            },
            ActivityKind::Write { path, .. } => {
                let kept = record_write(self.file_writes.get(path.as_str()), now);
                let writes = kept.len();
                proof {
                    assert(kept@ == before.writes_after(path@, now));
                    assert(time_lists(self.file_writes@.insert(path@, kept)) =~= time_lists(
                        self.file_writes@,
                    ).insert(path@, kept@));
                }
                self.file_writes.insert(path.clone(), kept);
                if writes >= self.gutter_thrash_count as usize {
                    signal = Some(Signal::Gutter(thrash_message(path.as_str(), writes)));
                }
            },
            _ => {},
        }
        assert(self@ == before.after(kind@, now));
        assert(match signal {
            Some(s) => before.gutter(kind@, now) == Some(s@->Gutter_0) && s is Gutter,
            None => before.gutter(kind@, now) is None,
        });

        if signal.is_none() {
            if self.token_usage.total >= self.rotate_threshold {
                signal = Some(Signal::Rotate);
            } else if self.token_usage.total >= self.warn_threshold {
                signal = Some(Signal::Warn);
            }
        }
        let health = self.token_usage.health(self.warn_threshold, self.rotate_threshold);
        let entry = ActivityEntry { timestamp: now, iteration: self.iteration, kind, health };
        (entry, signal)
    }

    /// Takes in one activity seen now, by the system clock. Whatever the clock
    /// reads, the outcome is that of `parse_activity_at` for some time.
    pub fn parse_activity(&mut self, kind: ActivityKind) -> (outcome: (
        ActivityEntry,
        Option<Signal>,
    ))
        requires
            old(self).wf(),
            old(self)@.fits(kind@),
        ensures
            final(self).wf(),
            final(self)@ == old(self)@.after(kind@, outcome.0.timestamp),
            outcome.0@ == old(self)@.entry(kind@, outcome.0.timestamp),
            signal_view(outcome.1) == old(self)@.signal(kind@, outcome.0.timestamp),
    {
        let now = now_millis();
        self.parse_activity_at(kind, now)
    }

    /// The token total at which the context is rotated.
    pub fn rotate_threshold(&self) -> (threshold: u32)
        ensures
            threshold == self@.rotate_threshold,
    {
        self.rotate_threshold
    }

    /// The token total at which a warning is given.
    pub fn warn_threshold(&self) -> (threshold: u32)
        ensures
            threshold == self@.warn_threshold,
    {
        self.warn_threshold
    }

    /// The token counters as they stand.
    pub fn token_usage(&self) -> (usage: &TokenUsage)
        ensures
            *usage == self@.usage,
    {
        &self.token_usage
    }

    /// Starts a fresh context window: all token counters go back to zero.
    /// Thresholds and gutter records stay.
    pub fn reset_tokens(&mut self)
        requires
            old(self).wf(),
        ensures
            final(self).wf(),
            final(self)@ == (ParserModel { usage: TokenUsage::zero(), ..old(self)@ }),
    {
        self.token_usage = TokenUsage::default();
    }
}

/// The tokens that one activity is charged: the bytes of a read or a write,
/// a fixed estimate for a shell call, nothing for anything else.
pub open spec fn tokens_of(kind: KindView) -> nat {
    match kind {
        KindView::Read { bytes, .. } => bytes as nat,
        KindView::Write { bytes, .. } => bytes as nat,
        KindView::Shell { .. } => SHELL_TOKEN_ESTIMATE as nat,
        _ => 0,
    }
}

/// The tokens charged for a run of activities.
pub open spec fn tokens_of_all(events: Seq<(KindView, u64)>) -> nat
    decreases events.len(),
{
    if events.len() == 0 {
        0
    } else {
        tokens_of_all(events.drop_last()) + tokens_of(events.last().0)
    }
}

/// The shell calls in a run of activities, whatever their exit codes.
pub open spec fn shell_calls(events: Seq<(KindView, u64)>) -> nat
    decreases events.len(),
{
    if events.len() == 0 {
        0
    } else {
        shell_calls(events.drop_last()) + if events.last().0 is Shell {
            1nat
        } else {
            0nat
        }
    }
}

/// Whether an activity is a failed call of the given command.
pub open spec fn is_failure_of(kind: KindView, command: Seq<char>) -> bool {
    match kind {
        KindView::Shell { command: called, exit_code } => called == command && exit_code != 0,
        _ => false,
    }
}

/// The failed calls of the given command in a run of activities.
pub open spec fn failing_calls(events: Seq<(KindView, u64)>, command: Seq<char>) -> nat
    decreases events.len(),
{
    if events.len() == 0 {
        0
    } else {
        failing_calls(events.drop_last(), command) + if is_failure_of(events.last().0, command) {
            1nat
        } else {
            0nat
        }
    }
}

impl ParserModel {
    /// The state after a run of activities, each with the time it was seen.
    pub open spec fn after_all(self, events: Seq<(KindView, u64)>) -> ParserModel
        decreases events.len(),
    {
        if events.len() == 0 {
            self
        } else {
            self.after_all(events.drop_last()).after(events.last().0, events.last().1)
        }
    }

    /// Whether every activity of a run fits the counters when its turn comes.
    pub open spec fn fits_all(self, events: Seq<(KindView, u64)>) -> bool
        decreases events.len(),
    {
        if events.len() == 0 {
            true
        } else {
            self.fits_all(events.drop_last()) && self.after_all(events.drop_last()).fits(
                events.last().0,
            )
        }
    }
}

/// One activity moves the counters as it is charged, where the total and the
/// counter of its kind can take it: a read adds its bytes to `read`, a write
/// to `write`, a shell call the estimate to `shell` whatever its exit code,
/// each of them the same to the total; `assistant` stays, and an activity of
/// another kind changes no counter. Nothing but the counters, the failure
/// counts and the write times is touched.
pub proof fn activity_adds_its_tokens(m: ParserModel, kind: KindView, now: u64)
    requires
        m.tokens_fit(kind),
    ensures
        m.after(kind, now).usage.total == m.usage.total + tokens_of(kind),
        m.after(kind, now).usage.read == m.usage.read + if kind is Read {
            tokens_of(kind)
        } else {
            0
        },
        m.after(kind, now).usage.write == m.usage.write + if kind is Write {
            tokens_of(kind)
        } else {
            0
        },
        m.after(kind, now).usage.shell == m.usage.shell + if kind is Shell {
            tokens_of(kind)
        } else {
            0
        },
        m.after(kind, now).usage.contributions() == m.usage.contributions() + tokens_of(kind),
        m.after(kind, now).usage.assistant == m.usage.assistant,
        m.after(kind, now).usage.total >= m.usage.total,
        m.after(kind, now) == (ParserModel {
            usage: m.after(kind, now).usage,
            failures: m.after(kind, now).failures,
            writes: m.after(kind, now).writes,
            ..m
        }),
{
}

/// Where the total is the sum of what was read, written and charged for
/// shell calls, as it is after a reset, and the new total fits a `u32`, the
/// sub-counters fit too, and the total is that sum again afterwards.
pub proof fn total_stays_the_sum(m: ParserModel, kind: KindView, now: u64)
    requires
        m.usage.total == m.usage.contributions(),
        m.usage.total + tokens_of(kind) <= u32::MAX,
    ensures
        m.tokens_fit(kind),
        m.after(kind, now).usage.total == m.after(kind, now).usage.contributions(),
        m.after(kind, now).usage.total == m.usage.total + tokens_of(kind),
{
}

/// Over any run of activities that begins with the total being the sum of
/// what was read, written and charged for shell calls, and in which the
/// total never exceeds a `u32`: the total is that sum at the end, it has
/// grown by exactly what the run is charged, and the shell counter by the
/// estimate for every shell call of the run. After a reset, then, the total
/// is the bytes read, the bytes written and the estimate times the number of
/// shell calls since.
pub proof fn total_is_sum_of_contributions(m: ParserModel, events: Seq<(KindView, u64)>)
    requires
        m.usage.total == m.usage.contributions(),
        m.usage.total + tokens_of_all(events) <= u32::MAX,
    ensures
        m.after_all(events).usage.total == m.after_all(events).usage.contributions(),
        m.after_all(events).usage.total == m.usage.total + tokens_of_all(events),
        m.after_all(events).usage.shell == m.usage.shell + SHELL_TOKEN_ESTIMATE * shell_calls(
            events,
        ),
        m.after_all(events).usage.assistant == m.usage.assistant,
    decreases events.len(),
{
    if events.len() > 0 {
        total_is_sum_of_contributions(m, events.drop_last());
        total_stays_the_sum(m.after_all(events.drop_last()), events.last().0, events.last().1);
        activity_adds_its_tokens(
            m.after_all(events.drop_last()),
            events.last().0,
            events.last().1,
        );
        assert(SHELL_TOKEN_ESTIMATE * (shell_calls(events.drop_last()) + 1)
            == SHELL_TOKEN_ESTIMATE * shell_calls(events.drop_last()) + SHELL_TOKEN_ESTIMATE)
            by (nonlinear_arith);
    }
}

/// A shell call raises a gutter signal exactly if it failed and the failures
/// of its command, this one counted, have reached the limit. A call that
/// exits with 0 never raises one, and counts against no command.
pub proof fn gutter_exactly_at_the_limit(m: ParserModel, kind: KindView, now: u64)
    requires
        kind is Shell,
    ensures
        m.gutter(kind, now) is Some <==> kind->exit_code != 0 && m.failures_of(kind->command) + 1
            >= m.fail_count,
        kind->exit_code == 0 ==> m.after(kind, now).failures == m.failures,
{
}

/// A failed shell call counts against its command and against no other. The
/// count is not set back by a signal: once the limit is reached, every
/// further failure of the command raises the signal again.
pub proof fn failure_counts_up(m: ParserModel, kind: KindView, now: u64, other: Seq<char>)
    requires
        kind matches KindView::Shell { exit_code, .. } && exit_code != 0,
        m.failures_fit(kind),
    ensures
        m.after(kind, now).failures_of(kind->command) == m.failures_of(kind->command) + 1,
        other != kind->command ==> m.after(kind, now).failures_of(other) == m.failures_of(other),
        m.gutter(kind, now) is Some ==> m.after(kind, now).gutter(kind, now) is Some,
{
}

/// Over any run of activities the failures counted against a command grow
/// by the failed calls of that command in the run, calls of other commands
/// and calls that exit with 0 counting for nothing.
pub proof fn failures_count_failed_calls(
    m: ParserModel,
    events: Seq<(KindView, u64)>,
    command: Seq<char>,
)
    requires
        m.failures_of(command) + failing_calls(events, command) <= u32::MAX,
    ensures
        m.after_all(events).failures_of(command) == m.failures_of(command) + failing_calls(
            events,
            command,
        ),
    decreases events.len(),
{
    if events.len() > 0 {
        failures_count_failed_calls(m, events.drop_last(), command);
    }
}

/// After any run of activities on a parser that had counted no failure of a
/// command, a failed call of the command raises a gutter signal exactly if
/// the failed calls of the command in the run, and this one, have reached
/// the limit: with a limit of three the third failure raises it, and so does
/// every failure after it.
pub proof fn nth_failure_is_gutter(
    m: ParserModel,
    events: Seq<(KindView, u64)>,
    kind: KindView,
    now: u64,
)
    requires
        kind matches KindView::Shell { exit_code, .. } && exit_code != 0,
        m.failures_of(kind->command) == 0,
        failing_calls(events, kind->command) <= u32::MAX,
    ensures
        m.after_all(events).fail_count == m.fail_count,
        m.after_all(events).gutter(kind, now) is Some <==> failing_calls(events, kind->command) + 1
            >= m.fail_count,
    decreases events.len(),
{
    failures_count_failed_calls(m, events, kind->command);
    limits_stay(m, events);
}

/// A run of activities leaves the thresholds and limits as they were.
pub proof fn limits_stay(m: ParserModel, events: Seq<(KindView, u64)>)
    ensures
        m.after_all(events).fail_count == m.fail_count,
        m.after_all(events).thrash_count == m.thrash_count,
        m.after_all(events).warn_threshold == m.warn_threshold,
        m.after_all(events).rotate_threshold == m.rotate_threshold,
        m.after_all(events).iteration == m.iteration,
    decreases events.len(),
{
    if events.len() > 0 {
        limits_stay(m, events.drop_last());
    }
}

/// A command that has not failed before and now fails three times in a row
/// raises no gutter signal the first and the second time, and raises one the
/// third time, when three failures are the limit.
pub proof fn third_failure_is_gutter(
    m: ParserModel,
    first: KindView,
    second: KindView,
    third: KindView,
    t1: u64,
    t2: u64,
    t3: u64,
)
    requires
        m.fail_count == 3,
        first matches KindView::Shell { exit_code, .. } && exit_code != 0,
        second matches KindView::Shell { exit_code, .. } && exit_code != 0,
        third matches KindView::Shell { exit_code, .. } && exit_code != 0,
        first->command == second->command,
        second->command == third->command,
        m.failures_of(first->command) == 0,
    ensures
        m.gutter(first, t1) is None,
        m.after(first, t1).gutter(second, t2) is None,
        m.after(first, t1).after(second, t2).gutter(third, t3) == Some(
            failure_text(3, first->command),
        ),
        m.after(first, t1).after(second, t2).signal(third, t3) == Some(
            SignalView::Gutter(failure_text(3, first->command)),
        ),
{
}

/// Times that all still count are all kept.
proof fn window_keeps_all(times: Seq<u64>, now: u64)
    requires
        forall|i: int| 0 <= i < times.len() ==> in_window(#[trigger] times[i], now),
    ensures
        within_window(times, now) == times,
    decreases times.len(),
{
    if times.len() > 0 {
        window_keeps_all(times.drop_last(), now);
        window_of_push(times.drop_last(), times.last(), now);
        assert(times.drop_last().push(times.last()) =~= times);
    } else {
        window_of_push(times, 0, now);
        assert(times =~= Seq::<u64>::empty());
    }
}

/// Where one time no longer counts, fewer times are kept than there were.
proof fn window_drops_one(times: Seq<u64>, now: u64, i: int)
    requires
        0 <= i < times.len(),
        !in_window(times[i], now),
    ensures
        within_window(times, now).len() < times.len(),
    decreases times.len(),
{
    window_of_push(times.drop_last(), times.last(), now);
    assert(times.drop_last().push(times.last()) =~= times);
    if i == times.len() - 1 {
        Seq::<u64>::lemma_filter_len(times.drop_last(), |t: u64| in_window(t, now));
    } else {
        window_drops_one(times.drop_last(), now, i);
    }
}

/// Where as many times are kept as there were, all of them are kept.
proof fn window_of_full_length(times: Seq<u64>, now: u64)
    requires
        within_window(times, now).len() >= times.len(),
    ensures
        within_window(times, now) == times,
{
    if exists|i: int| 0 <= i < times.len() && !in_window(times[i], now) {
        let i = choose|i: int| 0 <= i < times.len() && !in_window(times[i], now);
        window_drops_one(times, now, i);
    } else {
        window_keeps_all(times, now);
    }
}

/// The state after the first four of five writes.
pub open spec fn after_four(m: ParserModel, writes: Seq<KindView>, times: Seq<u64>)
    -> ParserModel {
    m.after(writes[0], times[0]).after(writes[1], times[1]).after(writes[2], times[2]).after(
        writes[3],
        times[3],
    )
}

/// Five writes to one path that was not written before, at times that do not
/// go backwards, with five writes as the limit: the fifth write raises the
/// thrashing signal if less than the length of the window lies between the
/// first write and the fifth, and raises no gutter signal if more does.
pub proof fn fifth_write_is_gutter_within_window(
    m: ParserModel,
    writes: Seq<KindView>,
    times: Seq<u64>,
)
    requires
        m.thrash_count == 5,
        writes.len() == 5,
        times.len() == 5,
        forall|i: int| 0 <= i < 5 ==> (#[trigger] writes[i]) is Write,
        forall|i: int|
            0 <= i < 5 ==> (#[trigger] writes[i])->Write_path == writes[0]->Write_path,
        forall|i: int, j: int| 0 <= i <= j < 5 ==> times[i] <= times[j],
        m.writes_of(writes[0]->Write_path) == Seq::<u64>::empty(),
    ensures
        times[4] < times[0] + THRASH_WINDOW_MILLIS ==> after_four(m, writes, times).gutter(
            writes[4],
            times[4],
        ) == Some(thrash_text(writes[0]->Write_path, 5)),
        times[4] >= times[0] + THRASH_WINDOW_MILLIS ==> after_four(m, writes, times).gutter(
            writes[4],
            times[4],
        ) is None,
{
    let path = writes[0]->Write_path;
    assert(writes[0] is Write);
    assert(writes[1] is Write && writes[1]->Write_path == path);
    assert(writes[2] is Write && writes[2]->Write_path == path);
    assert(writes[3] is Write && writes[3]->Write_path == path);
    assert(writes[4] is Write && writes[4]->Write_path == path);
    let m1 = m.after(writes[0], times[0]);
    let m2 = m1.after(writes[1], times[1]);
    let m3 = m2.after(writes[2], times[2]);
    let m4 = m3.after(writes[3], times[3]);
    let w0 = Seq::<u64>::empty();
    let w1 = m1.writes_of(path);
    let w2 = m2.writes_of(path);
    let w3 = m3.writes_of(path);
    let w4 = m4.writes_of(path);
    let w5 = m4.writes_after(path, times[4]);
    window_of_push(w0, times[0], times[0]);
    window_of_push(w1, times[1], times[1]);
    window_of_push(w2, times[2], times[2]);
    window_of_push(w3, times[3], times[3]);
    window_of_push(w4, times[4], times[4]);
    assert(w1 == w0.push(times[0]));
    assert(w2 == within_window(w1, times[1]).push(times[1]));
    assert(w3 == within_window(w2, times[2]).push(times[2]));
    assert(w4 == within_window(w3, times[3]).push(times[3]));
    assert(w5 == within_window(w4, times[4]).push(times[4]));
    Seq::<u64>::lemma_filter_len(w1, |t: u64| in_window(t, times[1]));
    Seq::<u64>::lemma_filter_len(w2, |t: u64| in_window(t, times[2]));
    Seq::<u64>::lemma_filter_len(w3, |t: u64| in_window(t, times[3]));
    Seq::<u64>::lemma_filter_len(w4, |t: u64| in_window(t, times[4]));
    if times[4] < times[0] + THRASH_WINDOW_MILLIS {
        window_keeps_all(w1, times[1]);
        window_keeps_all(w2, times[2]);
        window_keeps_all(w3, times[3]);
        window_keeps_all(w4, times[4]);
        assert(w5.len() == 5);
    } else {
        if w5.len() >= 5 {
            window_of_full_length(w4, times[4]);
            window_of_full_length(w3, times[3]);
            window_of_full_length(w2, times[2]);
            window_of_full_length(w1, times[1]);
            assert(w4[0] == times[0]);
            window_drops_one(w4, times[4], 0);
        }
    }
}

} // verus!
