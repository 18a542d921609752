use crate::types::{Signal, SignalView};
use vstd::prelude::*;
use vstd::string::StringExecFns;

verus! {

/// The line that announces a signal to a reader.
pub open spec fn signal_text(signal: SignalView) -> Seq<char> {
    match signal {
        SignalView::Warn => "⚠️  WARN: Approaching token limit. Wrap up current work and commit."@,
        SignalView::Rotate => "🔄 ROTATE: Token limit reached. Committing and starting fresh iteration."@,
        SignalView::Gutter(reason) => "🚨 GUTTER: Stuck state detected. "@ + reason,
        SignalView::Complete => "✅ COMPLETE: All stories have passed!"@,
        SignalView::StoryComplete(id) => "✓ Story "@ + id + " completed"@,
    }
}

/// Threshold checks on the running token total, and the wording of signals.
pub struct SignalHandler;

impl SignalHandler {
    /// Whether the token total has reached the warning threshold.
    pub fn should_warn(total_tokens: u32, threshold: u32) -> (warn: bool)
        ensures
            warn == (total_tokens >= threshold),
    {
        total_tokens >= threshold
    }

    /// Whether the token total has reached the rotation threshold.
    pub fn should_rotate(total_tokens: u32, threshold: u32) -> (rotate: bool)
        ensures
            rotate == (total_tokens >= threshold),
    {
        total_tokens >= threshold
    }

    /// The line that announces `signal`.
    pub fn format_signal(signal: &Signal) -> (text: String)
        ensures
            text@ == signal_text(signal@),
    {
        match signal {
            Signal::Warn => String::from_str(
                "⚠️  WARN: Approaching token limit. Wrap up current work and commit.",
            ),
            Signal::Rotate => String::from_str(
                "🔄 ROTATE: Token limit reached. Committing and starting fresh iteration.",
            ),
            Signal::Gutter(reason) => {
                let mut text = String::from_str("🚨 GUTTER: Stuck state detected. ");
                text.append(reason.as_str());
                text
            },
            Signal::Complete => String::from_str("✅ COMPLETE: All stories have passed!"),
            Signal::StoryComplete(id) => {
                let mut text = String::from_str("✓ Story ");
                text.append(id.as_str());
                text.append(" completed");
                text
            },
        }
    }
}

} // verus!
