//! The decisions of the application's event loop: given whether the window
//! and engine have been started and what the windowing system reported,
//! what the loop does next. The loop itself, the window and the engine
//! belong to the caller.
use vstd::prelude::*;

verus! {

/// What the windowing system reports to the application.
#[derive(PartialEq, Eq, Structural, Clone, Copy, Debug)]
pub enum LoopEvent {
    /// The application may now create its window.
    Resumed,
    /// The user asked to close the window.
    CloseRequested,
    /// The window must be drawn again.
    RedrawRequested,
    /// The window changed size.
    Resized,
    /// Any other window event.
    OtherWindowEvent,
    /// The engine woke the loop up.
    Wake,
}

/// What the loop does in answer.
#[derive(PartialEq, Eq, Structural, Clone, Copy, Debug)]
pub enum LoopAction {
    /// Create the window, start the engine and load the start page.
    Start,
    /// Leave the event loop.
    Exit,
    /// Let the engine work, then paint the window.
    SpinAndPaint,
    /// Resize the rendering surface to the window.
    Resize,
    /// Let the engine work.
    Spin,
    /// Nothing.
    Nothing,
}

/// The answer to `event` when the window and engine are `started` or not:
/// the first resume starts them; before that every other event is ignored;
/// once started, a close request exits, a redraw spins the engine and
/// paints, a resize resizes, a wake-up spins the engine, and anything else
/// (a second resume included) is ignored.
pub open spec fn spec_next_action(started: bool, event: LoopEvent) -> LoopAction {
    if !started {
        if event == LoopEvent::Resumed { LoopAction::Start } else { LoopAction::Nothing }
    } else {
        match event {
            LoopEvent::CloseRequested => LoopAction::Exit,
            LoopEvent::RedrawRequested => LoopAction::SpinAndPaint,
            LoopEvent::Resized => LoopAction::Resize,
            LoopEvent::Wake => LoopAction::Spin,
            _ => LoopAction::Nothing,
        }
    }
}

/// What the loop does next.
pub fn next_action(started: bool, event: LoopEvent) -> (r: LoopAction)
    ensures
        r == spec_next_action(started, event),
{
    if !started {
        match event {
            LoopEvent::Resumed => LoopAction::Start,
            _ => LoopAction::Nothing,
        }
    } else {
        match event {
            LoopEvent::CloseRequested => LoopAction::Exit,
            LoopEvent::RedrawRequested => LoopAction::SpinAndPaint,
            LoopEvent::Resized => LoopAction::Resize,
            LoopEvent::Wake => LoopAction::Spin,
            _ => LoopAction::Nothing,
        }
    }
}

/// The window and engine are started at most once: once started, no event
/// asks for them to be started again.
pub proof fn lemma_started_once(event: LoopEvent)
    ensures
        spec_next_action(true, event) != LoopAction::Start,
{
}

/// Nothing is drawn, resized or spun before the first resume has started
/// the window and engine.
pub proof fn lemma_idle_until_started(event: LoopEvent)
    ensures
        spec_next_action(false, event) == LoopAction::Start || spec_next_action(false, event)
            == LoopAction::Nothing,
{
}

/// Once the window and engine are started, a close request leaves the loop,
/// a redraw request spins the engine and paints, a resize resizes the
/// surface, a wake-up spins the engine, and anything else does nothing.
pub proof fn lemma_started_answers(event: LoopEvent)
    ensures
        event == LoopEvent::CloseRequested ==> spec_next_action(true, event) == LoopAction::Exit,
        event == LoopEvent::RedrawRequested ==> spec_next_action(true, event) == LoopAction::SpinAndPaint,
        event == LoopEvent::Resized ==> spec_next_action(true, event) == LoopAction::Resize,
        event == LoopEvent::Wake ==> spec_next_action(true, event) == LoopAction::Spin,
        (event == LoopEvent::Resumed || event == LoopEvent::OtherWindowEvent) ==> spec_next_action(true, event)
            == LoopAction::Nothing,
        spec_next_action(false, LoopEvent::Resumed) == LoopAction::Start,
{
}

} // verus!
