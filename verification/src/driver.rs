//! The frame driver: the per-tick state machine that orders the phases of
//! one frame and fixes the recovery rule for a stale surface.
//!
//! One tick runs Idle, Updating, Acquiring, Recording, Submitting,
//! Presenting and back to Idle. Acquisition that fails because the surface
//! is outdated is retried exactly once, after reconfiguring the surface;
//! a second consecutive failure, or any other failure, ends the run. Every
//! transition is a pure function of the current phase and the event the
//! host or backend reports, so the caller's loop makes no decision of its
//! own.

use vstd::prelude::*;

verus! {

/// The phase of the frame driver within one tick.
#[derive(Clone, Copy, Debug, PartialEq, Eq, Structural)]
pub enum FramePhase {
    /// Between ticks, waiting for the host to request a redraw.
    Idle,
    /// Advancing the animation and writing the model uniform.
    Updating,
    /// Requesting a presentable image from the surface.
    Acquiring {
        /// Whether a stale-surface failure was already recovered once this
        /// tick.
        retried: bool,
    },
    /// Recording the render pass into a command buffer.
    Recording,
    /// Submitting the recorded commands to the queue.
    Submitting,
    /// Presenting the acquired image.
    Presenting,
    /// A fatal failure: the run is over.
    Failed,
}

/// What the host or the graphics backend reports to the driver.
#[derive(Clone, Copy, Debug, PartialEq, Eq, Structural)]
pub enum FrameEvent {
    /// The host delivered a redraw tick.
    TickStarted,
    /// The model uniform bytes for this tick were written.
    ModelWritten,
    /// An image was acquired from the surface.
    AcquireOk,
    /// Acquisition failed because the surface is outdated.
    AcquireOutdated,
    /// Acquisition failed for any other reason, or the device was lost.
    AcquireFatal,
    /// The render pass was recorded and the command buffer closed.
    PassRecorded,
    /// The command buffer was submitted to the queue.
    CommandsSubmitted,
    /// The image was presented.
    FramePresented,
}

/// What the caller must do in a phase.
#[derive(Clone, Copy, Debug, PartialEq, Eq, Structural)]
pub enum FrameAction {
    /// Wait for the host's next redraw tick.
    AwaitTick,
    /// Compute this tick's model matrix and write its 64 bytes.
    WriteModelUniform,
    /// Request the next presentable image.
    AcquireImage,
    /// Reconfigure the surface with the current configuration, then request
    /// an image again.
    ReconfigureAndAcquire,
    /// Record one render pass drawing the cube.
    RecordPass,
    /// Submit the recorded commands to the queue.
    SubmitCommands,
    /// Present the acquired image.
    PresentImage,
    /// Abort the process: the failure is fatal.
    AbortProcess,
}

/// The transition function of the driver: the phase that follows `p` when
/// `ev` is reported. An event that its phase cannot report is a protocol
/// breach and fails the frame.
pub open spec fn next_phase(p: FramePhase, ev: FrameEvent) -> FramePhase {
    match (p, ev) {
        (FramePhase::Idle, FrameEvent::TickStarted) => FramePhase::Updating,
        (FramePhase::Updating, FrameEvent::ModelWritten) => FramePhase::Acquiring {
            retried: false,
        },
        (FramePhase::Acquiring { .. }, FrameEvent::AcquireOk) => FramePhase::Recording,
        (FramePhase::Acquiring { retried }, FrameEvent::AcquireOutdated) => if retried {
            FramePhase::Failed
        } else {
            FramePhase::Acquiring { retried: true }
        },
        (FramePhase::Acquiring { .. }, FrameEvent::AcquireFatal) => FramePhase::Failed,
        (FramePhase::Recording, FrameEvent::PassRecorded) => FramePhase::Submitting,
        (FramePhase::Submitting, FrameEvent::CommandsSubmitted) => FramePhase::Presenting,
        (FramePhase::Presenting, FrameEvent::FramePresented) => FramePhase::Idle,
        _ => FramePhase::Failed,
    }
}

/// Advances the driver by one reported event.
pub fn advance(p: FramePhase, ev: FrameEvent) -> (r: FramePhase)
    ensures
        r == next_phase(p, ev),
{
    match (p, ev) {
        (FramePhase::Idle, FrameEvent::TickStarted) => FramePhase::Updating,
        (FramePhase::Updating, FrameEvent::ModelWritten) => FramePhase::Acquiring {
            retried: false,
        },
        (FramePhase::Acquiring { .. }, FrameEvent::AcquireOk) => FramePhase::Recording,
        (FramePhase::Acquiring { retried }, FrameEvent::AcquireOutdated) => if retried {
            FramePhase::Failed
        } else {
            FramePhase::Acquiring { retried: true }
        },
        (FramePhase::Acquiring { .. }, FrameEvent::AcquireFatal) => FramePhase::Failed,
        (FramePhase::Recording, FrameEvent::PassRecorded) => FramePhase::Submitting,
        (FramePhase::Submitting, FrameEvent::CommandsSubmitted) => FramePhase::Presenting,
        (FramePhase::Presenting, FrameEvent::FramePresented) => FramePhase::Idle,
        _ => FramePhase::Failed,
    }
}

/// What the caller must do in phase `p`.
pub open spec fn phase_action(p: FramePhase) -> FrameAction {
    match p {
        FramePhase::Idle => FrameAction::AwaitTick,
        FramePhase::Updating => FrameAction::WriteModelUniform,
        FramePhase::Acquiring { retried } => if retried {
            FrameAction::ReconfigureAndAcquire
        } else {
            FrameAction::AcquireImage
        },
        FramePhase::Recording => FrameAction::RecordPass,
        FramePhase::Submitting => FrameAction::SubmitCommands,
        FramePhase::Presenting => FrameAction::PresentImage,
        FramePhase::Failed => FrameAction::AbortProcess,
    }
}

/// Returns the action the caller must perform in phase `p`.
pub fn action_for(p: FramePhase) -> (r: FrameAction)
    ensures
        r == phase_action(p),
{
    match p {
        FramePhase::Idle => FrameAction::AwaitTick,
        FramePhase::Updating => FrameAction::WriteModelUniform,
        FramePhase::Acquiring { retried } => if retried {
            FrameAction::ReconfigureAndAcquire
        } else {
            FrameAction::AcquireImage
        },
        FramePhase::Recording => FrameAction::RecordPass,
        FramePhase::Submitting => FrameAction::SubmitCommands,
        FramePhase::Presenting => FrameAction::PresentImage,
        FramePhase::Failed => FrameAction::AbortProcess,
    }
}

/// The phase after a whole sequence of reported events.
pub open spec fn run_events(p: FramePhase, evs: Seq<FrameEvent>) -> FramePhase
    decreases evs.len(),
{
    if evs.len() == 0 {
        p
    } else {
        run_events(next_phase(p, evs[0]), evs.drop_first())
    }
}

/// The events of a tick on which acquisition succeeds at once.
pub open spec fn plain_tick_events() -> Seq<FrameEvent> {
    seq![
        FrameEvent::TickStarted,
        FrameEvent::ModelWritten,
        FrameEvent::AcquireOk,
        FrameEvent::PassRecorded,
        FrameEvent::CommandsSubmitted,
        FrameEvent::FramePresented,
    ]
}

/// The events of a tick on which acquisition is stale once and the one
/// permitted retry succeeds.
pub open spec fn retried_tick_events() -> Seq<FrameEvent> {
    seq![
        FrameEvent::TickStarted,
        FrameEvent::ModelWritten,
        FrameEvent::AcquireOutdated,
        FrameEvent::AcquireOk,
        FrameEvent::PassRecorded,
        FrameEvent::CommandsSubmitted,
        FrameEvent::FramePresented,
    ]
}

/// Law: a stale acquisition is recovered by exactly one reconfigure-and-
/// retry. The first stale failure moves the driver to the retried
/// acquisition phase, whose action is to reconfigure and retry; a second
/// consecutive stale failure fails the frame, and from the retried phase no
/// event ever leads to a further acquisition attempt.
pub proof fn lemma_single_retry()
    ensures
        next_phase((FramePhase::Acquiring { retried: false }), FrameEvent::AcquireOutdated)
            == (FramePhase::Acquiring { retried: true }),
        phase_action((FramePhase::Acquiring { retried: true }))
            == FrameAction::ReconfigureAndAcquire,
        next_phase((FramePhase::Acquiring { retried: true }), FrameEvent::AcquireOutdated)
            == FramePhase::Failed,
        forall|ev: FrameEvent|
            (next_phase((FramePhase::Acquiring { retried: true }), ev) !is Acquiring),
{
}

/// Law: a failed frame never reaches the presenting phase. No acquisition
/// failure can be followed by presenting, and presenting is reached only
/// from a completed submission.
pub proof fn lemma_failed_frame_never_presents()
    ensures
        forall|p: FramePhase| next_phase(p, FrameEvent::AcquireOutdated) !is Presenting,
        forall|p: FramePhase| next_phase(p, FrameEvent::AcquireFatal) !is Presenting,
        forall|p: FramePhase, ev: FrameEvent|
            next_phase(p, ev) is Presenting ==> p is Submitting && ev
                == FrameEvent::CommandsSubmitted,
        forall|ev: FrameEvent| next_phase(FramePhase::Failed, ev) == FramePhase::Failed,
{
}

/// Law: within a tick the phases come in program order — updating starts
/// only from idle, acquisition only after the model uniform is written,
/// recording only after an acquisition, and submission only after the pass
/// is recorded. On the one in-order queue this is what guarantees that the
/// GPU observes the tick's uniform write before the commands that read it.
pub proof fn lemma_uniform_write_precedes_submission()
    ensures
        forall|p: FramePhase, ev: FrameEvent| ((next_phase(p, ev) is Updating) ==> p is Idle),
        forall|p: FramePhase, ev: FrameEvent|
            ((next_phase(p, ev) is Acquiring) ==> (p is Updating || p is Acquiring)),
        forall|p: FramePhase, ev: FrameEvent| ((next_phase(p, ev) is Recording) ==> p is Acquiring),
        forall|p: FramePhase, ev: FrameEvent| ((next_phase(p, ev) is Submitting) ==> p is Recording),
{
}

/// Law: a full tick returns the driver to the idle phase, both when
/// acquisition succeeds at once and when it is stale once and the one
/// permitted retry succeeds.
pub proof fn lemma_tick_cycle()
    ensures
        run_events(FramePhase::Idle, plain_tick_events()) == FramePhase::Idle,
        run_events(FramePhase::Idle, retried_tick_events()) == FramePhase::Idle,
{
    let plain = plain_tick_events();
    assert(run_events(FramePhase::Idle, plain) == run_events(
        FramePhase::Updating,
        plain.drop_first(),
    ));
    assert(run_events(FramePhase::Idle, plain) == FramePhase::Idle) by {
        reveal_with_fuel(run_events, 8);
        assert(plain.drop_first().drop_first().drop_first().drop_first().drop_first().drop_first()
            =~= Seq::<FrameEvent>::empty());
    }
    let retried = retried_tick_events();
    assert(run_events(FramePhase::Idle, retried) == FramePhase::Idle) by {
        reveal_with_fuel(run_events, 9);
        assert(retried.drop_first().drop_first().drop_first().drop_first().drop_first()
            .drop_first().drop_first() =~= Seq::<FrameEvent>::empty());
    }
}

} // verus!
