use ralph::signals::SignalHandler;
use ralph::types::Signal;

#[test]
fn test_should_warn() {
    assert!(!SignalHandler::should_warn(60_000, 70_000));
    assert!(SignalHandler::should_warn(70_000, 70_000));
    assert!(SignalHandler::should_warn(75_000, 70_000));
}

#[test]
fn test_should_rotate() {
    assert!(!SignalHandler::should_rotate(75_000, 80_000));
    assert!(SignalHandler::should_rotate(80_000, 80_000));
    assert!(SignalHandler::should_rotate(85_000, 80_000));
}

#[test]
fn test_format_signal() {
    assert!(SignalHandler::format_signal(&Signal::Warn).contains("WARN"));
    assert!(SignalHandler::format_signal(&Signal::Rotate).contains("ROTATE"));
    assert!(SignalHandler::format_signal(&Signal::Complete).contains("COMPLETE"));

    let gutter = Signal::Gutter("test reason".to_string());
    assert!(SignalHandler::format_signal(&gutter).contains("GUTTER"));
    assert!(SignalHandler::format_signal(&gutter).contains("test reason"));
}

#[test]
fn format_signal_gives_the_exact_lines() {
    assert_eq!(
        SignalHandler::format_signal(&Signal::Warn),
        "\u{26a0}\u{fe0f}  WARN: Approaching token limit. Wrap up current work and commit."
    );
    assert_eq!(
        SignalHandler::format_signal(&Signal::Rotate),
        "\u{1f504} ROTATE: Token limit reached. Committing and starting fresh iteration."
    );
    assert_eq!(
        SignalHandler::format_signal(&Signal::Gutter("npm test keeps failing".to_string())),
        "\u{1f6a8} GUTTER: Stuck state detected. npm test keeps failing"
    );
    assert_eq!(
        SignalHandler::format_signal(&Signal::Complete),
        "\u{2705} COMPLETE: All stories have passed!"
    );
    assert_eq!(
        SignalHandler::format_signal(&Signal::StoryComplete("US-001".to_string())),
        "\u{2713} Story US-001 completed"
    );
}
