use crate::parser::{
    signal_view, ParserModel, StreamParser, DEFAULT_FAIL_COUNT, DEFAULT_THRASH_COUNT,
};
use crate::types::{
    ActivityEntry, ActivityKind, IterationResult, KindView, ResultView, Session, SessionView,
    Signal, SignalView, TokenUsage,
};
use vstd::prelude::*;

verus! {

/// What the run of one iteration knows: the state of its stream parser,
/// whether the agent has said that it is done, and the last reason found to
/// call the agent stuck.
pub struct TrackerModel {
    pub parser: ParserModel,
    pub saw_complete: bool,
    pub gutter: Option<Seq<char>>,
}

impl TrackerModel {
    /// The tracker at the start of an iteration of `session`: the parser
    /// carries the session's iteration number, counters and thresholds.
    pub open spec fn begin(session: SessionView) -> TrackerModel {
        TrackerModel {
            parser: ParserModel {
                iteration: session.current_iteration,
                usage: session.token_usage,
                warn_threshold: session.config.warn_threshold,
                rotate_threshold: session.config.rotate_threshold,
                failures: Map::empty(),
                writes: Map::empty(),
                fail_count: DEFAULT_FAIL_COUNT,
                thrash_count: DEFAULT_THRASH_COUNT,
            },
            saw_complete: false,
            gutter: None,
        }
    }

    /// The tracker after a signal was raised, or none: a completion signal
    /// is remembered, and a gutter signal replaces the reason remembered
    /// before.
    pub open spec fn noted(self, signal: Option<SignalView>) -> TrackerModel {
        match signal {
            Some(SignalView::Complete) => TrackerModel { saw_complete: true, ..self },
            Some(SignalView::Gutter(reason)) => TrackerModel { gutter: Some(reason), ..self },
            _ => self,
        }
    }

    /// The tracker after an activity was seen at time `now`.
    pub open spec fn after(self, kind: KindView, now: u64) -> TrackerModel {
        TrackerModel { parser: self.parser.after(kind, now), ..self }.noted(
            self.parser.signal(kind, now),
        )
    }

    /// How the iteration ends once the agent has exited cleanly: in the
    /// gutter if a gutter signal was seen, else with a rotation if the token
    /// total has reached the rotation threshold, else with the story done,
    /// whether or not the agent has said so.
    pub open spec fn outcome(self) -> ResultView {
        match self.gutter {
            Some(reason) => ResultView::Gutter(reason),
            None => {
                if self.parser.usage.total >= self.parser.rotate_threshold {
                    ResultView::Rotate
                } else {
                    ResultView::StoryComplete
                }
            },
        }
    }
}

/// Where no gutter signal was seen and the token total has reached the
/// rotation threshold, be it exactly, the iteration ends with a rotation and
/// not with the story done, also where the agent has said that it is done.
pub proof fn rotation_comes_before_completion(tracker: TrackerModel)
    requires
        tracker.gutter is None,
        tracker.parser.usage.total >= tracker.parser.rotate_threshold,
    ensures
        tracker.outcome() == ResultView::Rotate,
{
}

/// A gutter signal decides the result whatever the token total is.
pub proof fn gutter_comes_before_rotation(tracker: TrackerModel, reason: Seq<char>)
    requires
        tracker.gutter == Some(reason),
    ensures
        tracker.outcome() == ResultView::Gutter(reason),
{
}

/// Follows one iteration: feeds the activity to a stream parser and keeps
/// what decides the iteration's result.
pub struct IterationTracker {
    parser: StreamParser,
    saw_complete: bool,
    gutter: Option<String>,
}

impl View for IterationTracker {
    type V = TrackerModel;

    closed spec fn view(&self) -> TrackerModel {
        TrackerModel {
            parser: self.parser@,
            saw_complete: self.saw_complete,
            gutter: match self.gutter {
                Some(reason) => Some(reason@),
                None => None,
            },
        }
    }
}

impl IterationTracker {
    /// The tracker's parser is in order.
    pub closed spec fn wf(&self) -> bool {
        self.parser.wf()
    }

    /// A tracker for the next iteration of `session`.
    pub fn new(session: &Session) -> (tracker: IterationTracker)
        ensures
            tracker.wf(),
            tracker@ == TrackerModel::begin(session@),
    {
        IterationTracker {
            parser: StreamParser::new(
                session.current_iteration,
                session.token_usage,
                session.config.warn_threshold,
                session.config.rotate_threshold,
            ),
            saw_complete: false,
            gutter: None,
        }
    }

    /// Remembers what a signal says about the iteration's result.
    pub fn note(&mut self, signal: &Option<Signal>)
        requires
            old(self).wf(),
        ensures
            final(self).wf(),
            final(self)@ == old(self)@.noted(signal_view(*signal)),
    {
        match signal {
            Some(Signal::Complete) => {
                self.saw_complete = true;
            },
            Some(Signal::Gutter(reason)) => {
                self.gutter = Some(reason.clone());
            },
            _ => {},
        }
    }

    /// Whether `kind` can be counted without a counter exceeding a `u32`.
    pub fn accepts(&self, kind: &ActivityKind) -> (fits: bool)
        requires
            self.wf(),
        ensures
            fits == self@.parser.fits(kind@),
    {
        self.parser.accepts(kind)
    }

    /// Takes in one activity seen at time `now` and returns the entry to
    /// broadcast for it, together with the signal it raised.
    pub fn observe_at(&mut self, kind: ActivityKind, now: u64) -> (outcome: (
        ActivityEntry,
        Option<Signal>,
    ))
        requires
            old(self).wf(),
            old(self)@.parser.fits(kind@),
        ensures
            final(self).wf(),
            final(self)@ == old(self)@.after(kind@, now),
            outcome.0@ == old(self)@.parser.entry(kind@, now),
            signal_view(outcome.1) == old(self)@.parser.signal(kind@, now),
    {
        let (entry, signal) = self.parser.parse_activity_at(kind, now);
        self.note(&signal);
        (entry, signal)
    }

    /// Takes in one activity seen now, by the system clock.
    pub fn observe(&mut self, kind: ActivityKind) -> (outcome: (ActivityEntry, Option<Signal>))
        requires
            old(self).wf(),
            old(self)@.parser.fits(kind@),
        ensures
            final(self).wf(),
            final(self)@ == old(self)@.after(kind@, outcome.0.timestamp),
            outcome.0@ == old(self)@.parser.entry(kind@, outcome.0.timestamp),
            signal_view(outcome.1) == old(self)@.parser.signal(kind@, outcome.0.timestamp),
    {
        let (entry, signal) = self.parser.parse_activity(kind);
        self.note(&signal);
        (entry, signal)
    }

    /// The token counters as they stand.
    pub fn token_usage(&self) -> (usage: TokenUsage)
        ensures
            usage == self@.parser.usage,
    {
        *self.parser.token_usage()
    }

    /// How the iteration ends, the agent having exited cleanly.
    pub fn result(&self) -> (result: IterationResult)
        requires
            self.wf(),
        ensures
            result@ == self@.outcome(),
    {
        match &self.gutter {
            Some(reason) => IterationResult::Gutter(reason.clone()),
            None => {
                if self.parser.token_usage().total >= self.parser.rotate_threshold() {
                    IterationResult::Rotate
                } else {
                    IterationResult::StoryComplete
                }
            },
        }
    }
}

} // verus!
