use app_runtime::lifecycle::{next_action, LoopAction, LoopEvent};

#[test]
fn first_resume_starts_the_window() {
    assert_eq!(next_action(false, LoopEvent::Resumed), LoopAction::Start);
    assert_eq!(next_action(true, LoopEvent::Resumed), LoopAction::Nothing);
}

#[test]
fn events_before_start_are_ignored() {
    for e in [
        LoopEvent::CloseRequested,
        LoopEvent::RedrawRequested,
        LoopEvent::Resized,
        LoopEvent::OtherWindowEvent,
        LoopEvent::Wake,
    ] {
        assert_eq!(next_action(false, e), LoopAction::Nothing);
    }
}

#[test]
fn events_once_started() {
    assert_eq!(next_action(true, LoopEvent::CloseRequested), LoopAction::Exit);
    assert_eq!(next_action(true, LoopEvent::RedrawRequested), LoopAction::SpinAndPaint);
    assert_eq!(next_action(true, LoopEvent::Resized), LoopAction::Resize);
    assert_eq!(next_action(true, LoopEvent::Wake), LoopAction::Spin);
    assert_eq!(next_action(true, LoopEvent::OtherWindowEvent), LoopAction::Nothing);
}
