//! The resource discipline of the session protocol, and the proof that every
//! session keeps it.
//!
//! A driver holds handles that the camera SDK gave it: a pipeline, a
//! configuration, the running state of the pipeline, a frame set, and one frame
//! out of that set. [`permitted`] says which requests are in order for given
//! holdings: nothing is released that is not held, nothing is released twice,
//! a frame is released before the frame set it came from, and a session ends
//! holding nothing.
//!
//! The module also proves that a failure is final: once a request has failed,
//! the session only releases what is held and ends as failed.

use vstd::prelude::*;
use crate::frame::FrameView;
use crate::protocol::assemble;
use crate::protocol::complete;
use crate::protocol::release_frame;
use crate::protocol::step;
use crate::protocol::Action;
use crate::protocol::Event;
use crate::protocol::Phase;
use crate::protocol::Setup;

verus! {

/// What the driver holds of the camera SDK.
pub ghost struct Holdings {
    pub pipeline: bool,
    pub config: bool,
    /// The pipeline was started and not stopped since.
    pub running: bool,
    pub frame_set: bool,
    /// The number of the extracted frame.
    pub frame: Option<u32>,
}

/// The driver holds nothing.
pub open spec fn nothing() -> Holdings {
    Holdings { pipeline: false, config: false, running: false, frame_set: false, frame: None }
}

/// The driver holds a pipeline and a configuration, and the pipeline does not
/// run.
pub open spec fn configured() -> Holdings {
    Holdings { pipeline: true, config: true, ..nothing() }
}

/// The pipeline runs and no capture cycle holds anything.
pub open spec fn streaming() -> Holdings {
    Holdings { running: true, ..configured() }
}

/// The pipeline runs and the driver holds a frame set, and no frame of it.
pub open spec fn with_frame_set() -> Holdings {
    Holdings { frame_set: true, ..streaming() }
}

/// The pipeline runs and the driver holds a frame set and frame `index` of it.
pub open spec fn with_frame(index: u32) -> Holdings {
    Holdings { frame: Some(index), ..with_frame_set() }
}

/// Whether `action` is in order for a driver that holds `held`.
pub open spec fn permitted(held: Holdings, action: Action) -> bool {
    match action {
        Action::CreatePipeline => held == nothing(),
        Action::CreateConfig => held == (Holdings { pipeline: true, ..nothing() }),
        Action::EnableStream(_) => held == configured(),
        Action::StartPipeline => held == configured(),
        Action::WaitForFrames { .. } => held == streaming(),
        Action::CountFrames => held == with_frame_set(),
        Action::ExtractFrame { .. } => held == with_frame_set(),
        Action::CheckDepth => held.frame_set && held.frame is Some,
        Action::CheckVideo => held.frame_set && held.frame is Some,
        Action::ReadDepth { .. } => held.frame_set && held.frame is Some,
        Action::ReadColor { .. } => held.frame_set && held.frame is Some,
        Action::ReleaseFrame { index } => held.frame_set && held.frame == Some(index),
        Action::ReleaseFrameSet => held.frame_set && held.frame is None,
        Action::StopPipeline => held == streaming(),
        Action::ReleaseConfig => held == configured(),
        Action::ReleasePipeline => held == (Holdings { pipeline: true, ..nothing() }),
        Action::Ready => held == streaming(),
        Action::Deliver => held == streaming(),
        Action::Closed => held == nothing(),
        Action::Abort => held == nothing(),
        Action::Refused => true,
    }
}

/// What the driver holds once it has carried out `action`: a release gives up
/// what it names, whatever comes of it.
pub open spec fn given_up(held: Holdings, action: Action) -> Holdings {
    match action {
        Action::ReleaseFrame { .. } => Holdings { frame: None, ..held },
        Action::ReleaseFrameSet => Holdings { frame_set: false, ..held },
        Action::StopPipeline => Holdings { running: false, ..held },
        Action::ReleaseConfig => Holdings { config: false, ..held },
        Action::ReleasePipeline => Holdings { pipeline: false, ..held },
        _ => held,
    }
}

/// What the driver holds once `action` has come out as `event`: a request that
/// succeeded hands over what it names.
pub open spec fn handed_over(held: Holdings, action: Action, event: Event) -> Holdings {
    if event is Done {
        match action {
            Action::CreatePipeline => Holdings { pipeline: true, ..held },
            Action::CreateConfig => Holdings { config: true, ..held },
            Action::StartPipeline => Holdings { running: true, ..held },
            Action::WaitForFrames { .. } => Holdings { frame_set: true, ..held },
            Action::ExtractFrame { index } => Holdings { frame: Some(index), ..held },
            _ => held,
        }
    } else {
        held
    }
}

/// A session together with the driver that serves it.
pub ghost struct Run {
    pub phase: Phase,
    /// The session's last answer.
    pub asked: Action,
    /// What the driver holds once it has carried out `asked`.
    pub held: Holdings,
    /// Every answer so far was permitted when it was given.
    pub orderly: bool,
}

/// A session that was just made, and a driver that holds nothing.
pub open spec fn start_of_run() -> Run {
    Run { phase: Phase::NotStarted, asked: Action::Refused, held: nothing(), orderly: true }
}

/// The run after one more event.
pub open spec fn run_on(setup: Setup, run: Run, event: Event) -> Run {
    let held = handed_over(run.held, run.asked, event);
    let (phase, asked) = step(setup, run.phase, event);
    Run { phase, asked, held: given_up(held, asked), orderly: run.orderly && permitted(held, asked) }
}

/// The run of a new session over `events`.
pub open spec fn run_over(setup: Setup, events: Seq<Event>) -> Run
    decreases events.len(),
{
    if events.len() == 0 {
        start_of_run()
    } else {
        run_on(setup, run_over(setup, events.drop_last()), events.last())
    }
}

/// What the driver of a session in `phase` holds, once it has carried out the
/// session's last answer.
pub open spec fn held_in(phase: Phase) -> Holdings {
    match phase {
        Phase::NotStarted => nothing(),
        Phase::CreatingPipeline => nothing(),
        Phase::CreatingConfig => Holdings { pipeline: true, ..nothing() },
        Phase::EnablingStream { .. } => configured(),
        Phase::Starting => configured(),
        Phase::Idle => streaming(),
        Phase::AwaitingFrames => streaming(),
        Phase::AwaitingCount => with_frame_set(),
        Phase::AwaitingFrame { .. } => with_frame_set(),
        Phase::CheckingDepth { index, .. } => with_frame(index),
        Phase::CheckingVideo { index, .. } => with_frame(index),
        Phase::ReadingDepth { index, .. } => with_frame(index),
        Phase::ReadingColor { index, .. } => with_frame(index),
        Phase::ReleasingFrame { .. } => with_frame_set(),
        Phase::ReleasingFrameSet { .. } => streaming(),
        Phase::Stopping { .. } => configured(),
        Phase::ReleasingConfig { .. } => Holdings { pipeline: true, ..nothing() },
        Phase::ReleasingPipeline { .. } => nothing(),
        Phase::Stopped => nothing(),
        Phase::Failed => nothing(),
    }
}

/// Whether the session's last answer is one that its phase can follow.
pub open spec fn asked_in(phase: Phase, asked: Action) -> bool {
    match phase {
        Phase::NotStarted => asked == Action::Refused,
        Phase::CreatingPipeline => asked == Action::CreatePipeline,
        Phase::CreatingConfig => asked == Action::CreateConfig,
        Phase::EnablingStream { .. } => asked is EnableStream,
        Phase::Starting => asked == Action::StartPipeline,
        Phase::Idle => asked == Action::Ready || asked == Action::Deliver || asked
            == Action::Refused,
        Phase::AwaitingFrames => asked is WaitForFrames,
        Phase::AwaitingCount => asked == Action::CountFrames,
        Phase::AwaitingFrame { index, .. } => asked == (Action::ExtractFrame { index }),
        Phase::CheckingDepth { .. } => asked == Action::CheckDepth,
        Phase::CheckingVideo { .. } => asked == Action::CheckVideo,
        Phase::ReadingDepth { .. } => asked is ReadDepth,
        Phase::ReadingColor { .. } => asked is ReadColor,
        Phase::ReleasingFrame { index, .. } => asked == (Action::ReleaseFrame { index }),
        Phase::ReleasingFrameSet { .. } => asked == Action::ReleaseFrameSet,
        Phase::Stopping { .. } => asked == Action::StopPipeline,
        Phase::ReleasingConfig { .. } => asked == Action::ReleaseConfig,
        Phase::ReleasingPipeline { .. } => asked == Action::ReleasePipeline,
        Phase::Stopped => asked == Action::Closed || asked == Action::Refused,
        Phase::Failed => asked == Action::Abort || asked == Action::Refused,
    }
}

/// A run in which the driver holds what the session's phase says, and every
/// answer was permitted.
pub open spec fn in_order(run: Run) -> bool {
    &&& run.orderly
    &&& run.held == held_in(run.phase)
    &&& asked_in(run.phase, run.asked)
}

/// One event keeps a run in order.
pub proof fn lemma_step_keeps_order(setup: Setup, run: Run, event: Event)
    requires
        in_order(run),
    ensures
        in_order(run_on(setup, run, event)),
{
}

/// Release discipline: whatever events come, every answer of a session is
/// permitted when it is given, and the driver holds what the phase says. So
/// each frame that was extracted is released once, before its frame set, the
/// frame set is released once, a cycle ends with neither held, and a session
/// that is stopped or has failed holds nothing.
pub proof fn lemma_run_is_orderly(setup: Setup, events: Seq<Event>)
    ensures
        in_order(run_over(setup, events)),
    decreases events.len(),
{
    if events.len() > 0 {
        lemma_run_is_orderly(setup, events.drop_last());
        lemma_step_keeps_order(setup, run_over(setup, events.drop_last()), events.last());
    }
}

/// Nothing leaks: whatever events come, a session that is stopped or has
/// failed leaves the driver with nothing, a session between two cycles leaves
/// it with the running pipeline and neither frame set nor frame, and a frame
/// set is given up only when no frame of it is held.
pub proof fn lemma_nothing_leaks(setup: Setup, events: Seq<Event>)
    ensures
        ({
            let run = run_over(setup, events);
            &&& run.phase is Stopped || run.phase is Failed ==> run.held == nothing()
            &&& run.phase is Idle ==> run.held == streaming()
            &&& run.asked is ReleaseFrameSet ==> run.held.frame is None && !run.held.frame_set
            &&& run.asked is ReleaseFrame ==> run.held.frame is None && run.held.frame_set
            &&& run.asked is Deliver ==> run.held == streaming()
            &&& run.asked is Closed || run.asked is Abort ==> run.held == nothing()
        }),
{
    lemma_run_is_orderly(setup, events);
}

/// A frame that is neither a depth frame nor a video frame is skipped: the
/// session asks about video after depth, then releases the frame in good
/// health, and the frame under assembly and the finished frame stay as they
/// were.
pub proof fn lemma_unrecognized_frame_is_skipped(
    setup: Setup,
    index: u32,
    count: u32,
    building: FrameView,
    completed: Option<FrameView>,
)
    ensures
        ({
            let first = Phase::CheckingDepth { index, count };
            let no = Event::Extendable(false);
            let (second, asked) = step(setup, first, no);
            &&& asked == Action::CheckVideo
            &&& step(setup, second, no) == release_frame(index, count, true)
            &&& assemble(setup, first, no, building) == building
            &&& assemble(setup, second, no, building) == building
            &&& complete(first, no, building, completed) == completed
            &&& complete(second, no, building, completed) == completed
        }),
{
}

/// Whether the session waits for the outcome of a request.
pub open spec fn has_request(phase: Phase) -> bool {
    !(phase is NotStarted || phase is Idle || phase is Stopped || phase is Failed)
}

/// Whether the session is on its way to `Failed`, or there.
pub open spec fn doomed(phase: Phase) -> bool {
    match phase {
        Phase::ReleasingFrame { healthy, .. } => !healthy,
        Phase::ReleasingFrameSet { healthy } => !healthy,
        Phase::Stopping { healthy } => !healthy,
        Phase::ReleasingConfig { healthy } => !healthy,
        Phase::ReleasingPipeline { healthy } => !healthy,
        Phase::Failed => true,
        _ => false,
    }
}

/// The number of releases that a doomed session still asks for before it has
/// failed.
pub open spec fn releases_left(phase: Phase) -> nat {
    match phase {
        Phase::ReleasingFrame { .. } => 5,
        Phase::ReleasingFrameSet { .. } => 4,
        Phase::Stopping { .. } => 3,
        Phase::ReleasingConfig { .. } => 2,
        Phase::ReleasingPipeline { .. } => 1,
        _ => 0,
    }
}

/// A failure is fatal. A request that fails dooms the session; a doomed
/// session takes no command and retries nothing: whatever the events, each
/// answer is the next release, then `Abort`, and from then on `Refused`.
pub proof fn lemma_failure_is_fatal(setup: Setup, phase: Phase, event: Event)
    ensures
        has_request(phase) && event is Failed ==> doomed(step(setup, phase, event).0),
        doomed(phase) ==> doomed(step(setup, phase, event).0),
        doomed(phase) && !(phase is Failed) ==> releases_left(step(setup, phase, event).0)
            == releases_left(phase) - 1,
        doomed(phase) && releases_left(phase) == 1 ==> step(setup, phase, event) == (
            Phase::Failed,
            Action::Abort,
        ),
        phase is Failed ==> step(setup, phase, event) == (Phase::Failed, Action::Refused),
{
}

/// A session is torn down once: when it is stopped it stays stopped and
/// refuses every event.
pub proof fn lemma_stopped_is_final(setup: Setup, event: Event)
    ensures
        step(setup, Phase::Stopped, event) == (Phase::Stopped, Action::Refused),
{
}

/// Frames are acquired only while the pipeline runs: a session that is not
/// started, stopped or failed refuses the command to capture.
pub proof fn lemma_capture_needs_a_started_session(setup: Setup, phase: Phase)
    requires
        phase is NotStarted || phase is Stopped || phase is Failed,
    ensures
        step(setup, phase, Event::Begin) == (phase, Action::Refused),
{
}

} // verus!
