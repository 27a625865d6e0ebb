use rotating_cube::driver::FrameAction;
use rotating_cube::driver::FrameEvent;
use rotating_cube::driver::FramePhase;
use rotating_cube::driver::action_for;
use rotating_cube::driver::advance;

#[test]
fn plain_tick_cycles_back_to_idle() {
    let mut phase = FramePhase::Idle;
    assert_eq!(action_for(phase), FrameAction::AwaitTick);
    phase = advance(phase, FrameEvent::TickStarted);
    assert_eq!(phase, FramePhase::Updating);
    assert_eq!(action_for(phase), FrameAction::WriteModelUniform);
    phase = advance(phase, FrameEvent::ModelWritten);
    assert_eq!(phase, FramePhase::Acquiring { retried: false });
    assert_eq!(action_for(phase), FrameAction::AcquireImage);
    phase = advance(phase, FrameEvent::AcquireOk);
    assert_eq!(phase, FramePhase::Recording);
    assert_eq!(action_for(phase), FrameAction::RecordPass);
    phase = advance(phase, FrameEvent::PassRecorded);
    assert_eq!(phase, FramePhase::Submitting);
    assert_eq!(action_for(phase), FrameAction::SubmitCommands);
    phase = advance(phase, FrameEvent::CommandsSubmitted);
    assert_eq!(phase, FramePhase::Presenting);
    assert_eq!(action_for(phase), FrameAction::PresentImage);
    phase = advance(phase, FrameEvent::FramePresented);
    assert_eq!(phase, FramePhase::Idle);
}

#[test]
fn stale_surface_is_retried_exactly_once() {
    let phase = FramePhase::Acquiring { retried: false };
    let after_first_failure = advance(phase, FrameEvent::AcquireOutdated);
    assert_eq!(after_first_failure, FramePhase::Acquiring { retried: true });
    assert_eq!(action_for(after_first_failure), FrameAction::ReconfigureAndAcquire);
    let after_second_failure = advance(after_first_failure, FrameEvent::AcquireOutdated);
    assert_eq!(after_second_failure, FramePhase::Failed);
    assert_eq!(action_for(after_second_failure), FrameAction::AbortProcess);
}

#[test]
fn retried_acquisition_can_still_succeed() {
    let phase = FramePhase::Acquiring { retried: true };
    assert_eq!(advance(phase, FrameEvent::AcquireOk), FramePhase::Recording);
}

#[test]
fn fatal_acquisition_failure_fails_at_once() {
    assert_eq!(
        advance(FramePhase::Acquiring { retried: false }, FrameEvent::AcquireFatal),
        FramePhase::Failed
    );
    assert_eq!(
        advance(FramePhase::Acquiring { retried: true }, FrameEvent::AcquireFatal),
        FramePhase::Failed
    );
}

#[test]
fn failure_is_terminal() {
    let events = [
        FrameEvent::TickStarted,
        FrameEvent::ModelWritten,
        FrameEvent::AcquireOk,
        FrameEvent::AcquireOutdated,
        FrameEvent::AcquireFatal,
        FrameEvent::PassRecorded,
        FrameEvent::CommandsSubmitted,
        FrameEvent::FramePresented,
    ];
    for ev in events {
        assert_eq!(advance(FramePhase::Failed, ev), FramePhase::Failed);
    }
}

#[test]
fn out_of_order_event_fails_the_frame() {
    assert_eq!(advance(FramePhase::Idle, FrameEvent::AcquireOk), FramePhase::Failed);
    assert_eq!(advance(FramePhase::Recording, FrameEvent::TickStarted), FramePhase::Failed);
    assert_eq!(advance(FramePhase::Presenting, FrameEvent::CommandsSubmitted), FramePhase::Failed);
}
