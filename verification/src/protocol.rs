//! The session protocol: which request a session makes of the camera SDK next.
//!
//! The session performs no I/O. A driver performs each [`Action`] that the
//! session asks for and reports what came of it as an [`Event`]; [`step`] says
//! how the session answers. An event that does not report the success of the
//! pending request counts as its failure. After a failure the session asks for
//! the release of everything it holds, innermost first, and ends with
//! [`Action::Abort`].

use vstd::prelude::*;
use crate::decode::buffer_len;
use crate::decode::color_image;
use crate::decode::depth_image;
use crate::decode::pixel_count;
use crate::frame::empty_frame;
use crate::frame::FrameView;
use crate::stream::StreamRequest;

verus! {

/// How long one wait for frames may block, in milliseconds.
pub const WAIT_TIMEOUT_MS: u32 = 3000;

/// Where a session stands. Every phase but `NotStarted`, `Idle`, `Stopped` and
/// `Failed` has one request pending with the driver.
#[derive(Clone, Copy, Debug, PartialEq, Eq, Structural)]
pub enum Phase {
    /// Made, and nothing acquired yet.
    NotStarted,
    CreatingPipeline,
    CreatingConfig,
    /// Request number `next` is being enabled.
    EnablingStream { next: usize },
    Starting,
    /// Started, and between two capture cycles.
    Idle,
    AwaitingFrames,
    AwaitingCount,
    /// Frame `index` of `count` is being extracted.
    AwaitingFrame { index: u32, count: u32 },
    CheckingDepth { index: u32, count: u32 },
    CheckingVideo { index: u32, count: u32 },
    ReadingDepth { index: u32, count: u32 },
    ReadingColor { index: u32, count: u32 },
    /// Frame `index` is being released; `healthy` is false after a failure.
    ReleasingFrame { index: u32, count: u32, healthy: bool },
    ReleasingFrameSet { healthy: bool },
    Stopping { healthy: bool },
    ReleasingConfig { healthy: bool },
    ReleasingPipeline { healthy: bool },
    /// Torn down in good order.
    Stopped,
    /// Torn down after a failure.
    Failed,
}

/// A command of the application, or what came of the pending request.
#[derive(Clone, Copy, Debug)]
pub enum Event<'a> {
    /// Command: build and start the pipeline.
    Open,
    /// Command: capture one frame.
    Begin,
    /// Command: tear the session down.
    Close,
    /// The pending request succeeded and has no value.
    Done,
    /// The number of frames in the frame set.
    Count(u32),
    /// Whether the current frame can be read as the kind asked about.
    Extendable(bool),
    /// The depth samples of the current frame.
    DepthSamples(&'a [u16]),
    /// The colour bytes of the current frame.
    ColorBytes(&'a [u8]),
    /// The pending request reported an error.
    Failed,
}

/// What the driver is to do next.
#[derive(Clone, Copy, Debug, PartialEq, Eq, Structural)]
pub enum Action {
    CreatePipeline,
    CreateConfig,
    EnableStream(StreamRequest),
    StartPipeline,
    WaitForFrames { timeout_ms: u32 },
    CountFrames,
    ExtractFrame { index: u32 },
    /// Ask whether the current frame is a depth frame.
    CheckDepth,
    /// Ask whether the current frame is a video frame.
    CheckVideo,
    /// Hand over the first `samples` depth samples of the current frame.
    ReadDepth { samples: usize },
    /// Hand over the first `bytes` bytes of the current frame.
    ReadColor { bytes: usize },
    ReleaseFrame { index: u32 },
    ReleaseFrameSet,
    StopPipeline,
    ReleaseConfig,
    ReleasePipeline,
    /// The pipeline runs; the session takes `Begin` and `Close`.
    Ready,
    /// A capture cycle is complete and its frame can be taken.
    Deliver,
    /// The session is torn down.
    Closed,
    /// The session failed and is torn down; the failure is fatal.
    Abort,
    /// The session takes no such event in its phase; nothing changed.
    Refused,
}

/// What is fixed when a session is made.
pub ghost struct Setup {
    pub requests: Seq<StreamRequest>,
    pub w: u32,
    pub h: u32,
}

/// Whether a decoded frame of the session's size can be addressed.
pub open spec fn frame_fits(setup: Setup) -> bool {
    buffer_len(setup.w, setup.h) <= usize::MAX
}

/// Enable request number `next`.
pub open spec fn enable(setup: Setup, next: int) -> (Phase, Action) {
    (Phase::EnablingStream { next: next as usize }, Action::EnableStream(setup.requests[next]))
}

/// Extract frame `index` of `count`.
pub open spec fn extract(index: int, count: u32) -> (Phase, Action) {
    (Phase::AwaitingFrame { index: index as u32, count }, Action::ExtractFrame { index: index as u32 })
}

/// Release the current frame.
pub open spec fn release_frame(index: u32, count: u32, healthy: bool) -> (Phase, Action) {
    (Phase::ReleasingFrame { index, count, healthy }, Action::ReleaseFrame { index })
}

/// Release the frame set.
pub open spec fn release_frame_set(healthy: bool) -> (Phase, Action) {
    (Phase::ReleasingFrameSet { healthy }, Action::ReleaseFrameSet)
}

/// Stop the pipeline, as the first step of tearing down.
pub open spec fn tear_down(healthy: bool) -> (Phase, Action) {
    (Phase::Stopping { healthy }, Action::StopPipeline)
}

/// The phase that follows `phase` on `event`, and the session's answer.
pub open spec fn step(setup: Setup, phase: Phase, event: Event) -> (Phase, Action) {
    match phase {
        Phase::NotStarted => match event {
            Event::Open => (Phase::CreatingPipeline, Action::CreatePipeline),
            Event::Close => (Phase::Stopped, Action::Closed),
            _ => (phase, Action::Refused),
        },
        Phase::CreatingPipeline => if event is Done {
            (Phase::CreatingConfig, Action::CreateConfig)
        } else {
            (Phase::Failed, Action::Abort)
        },
        Phase::CreatingConfig => if event is Done {
            if 0 < setup.requests.len() {
                enable(setup, 0)
            } else {
                (Phase::Starting, Action::StartPipeline)
            }
        } else {
            (Phase::ReleasingPipeline { healthy: false }, Action::ReleasePipeline)
        },
        Phase::EnablingStream { next } => if event is Done {
            if next + 1 < setup.requests.len() {
                enable(setup, next + 1)
            } else {
                (Phase::Starting, Action::StartPipeline)
            }
        } else {
            (Phase::ReleasingConfig { healthy: false }, Action::ReleaseConfig)
        },
        Phase::Starting => if event is Done {
            (Phase::Idle, Action::Ready)
        } else {
            (Phase::ReleasingConfig { healthy: false }, Action::ReleaseConfig)
        },
        Phase::Idle => match event {
            Event::Begin => (
                Phase::AwaitingFrames,
                Action::WaitForFrames { timeout_ms: WAIT_TIMEOUT_MS },
            ),
            Event::Close => tear_down(true),
            _ => (phase, Action::Refused),
        },
        Phase::AwaitingFrames => if event is Done {
            (Phase::AwaitingCount, Action::CountFrames)
        } else {
            tear_down(false)
        },
        Phase::AwaitingCount => match event {
            Event::Count(count) => if 0 < count {
                extract(0, count)
            } else {
                release_frame_set(true)
            },
            _ => release_frame_set(false),
        },
        Phase::AwaitingFrame { index, count } => if event is Done {
            (Phase::CheckingDepth { index, count }, Action::CheckDepth)
        } else {
            release_frame_set(false)
        },
        Phase::CheckingDepth { index, count } => match event {
            Event::Extendable(true) => if frame_fits(setup) {
                (
                    Phase::ReadingDepth { index, count },
                    Action::ReadDepth { samples: pixel_count(setup.w, setup.h) as usize },
                )
            } else {
                release_frame(index, count, false)
            },
            Event::Extendable(false) => (Phase::CheckingVideo { index, count }, Action::CheckVideo),
            _ => release_frame(index, count, false),
        },
        Phase::CheckingVideo { index, count } => match event {
            Event::Extendable(true) => if frame_fits(setup) {
                (
                    Phase::ReadingColor { index, count },
                    Action::ReadColor { bytes: buffer_len(setup.w, setup.h) as usize },
                )
            } else {
                release_frame(index, count, false)
            },
            Event::Extendable(false) => release_frame(index, count, true),
            _ => release_frame(index, count, false),
        },
        Phase::ReadingDepth { index, count } => match event {
            Event::DepthSamples(samples) => release_frame(
                index,
                count,
                depth_image(samples@, setup.w, setup.h) is Ok,
            ),
            _ => release_frame(index, count, false),
        },
        Phase::ReadingColor { index, count } => match event {
            Event::ColorBytes(bytes) => release_frame(
                index,
                count,
                color_image(bytes@, setup.w, setup.h) is Ok,
            ),
            _ => release_frame(index, count, false),
        },
        Phase::ReleasingFrame { index, count, healthy } => if healthy && event is Done {
            if index + 1 < count {
                extract(index + 1, count)
            } else {
                release_frame_set(true)
            }
        } else {
            release_frame_set(false)
        },
        Phase::ReleasingFrameSet { healthy } => if healthy && event is Done {
            (Phase::Idle, Action::Deliver)
        } else {
            tear_down(false)
        },
        Phase::Stopping { healthy } => (
            Phase::ReleasingConfig { healthy: healthy && event is Done },
            Action::ReleaseConfig,
        ),
        Phase::ReleasingConfig { healthy } => (
            Phase::ReleasingPipeline { healthy: healthy && event is Done },
            Action::ReleasePipeline,
        ),
        Phase::ReleasingPipeline { healthy } => if healthy && event is Done {
            (Phase::Stopped, Action::Closed)
        } else {
            (Phase::Failed, Action::Abort)
        },
        Phase::Stopped => (phase, Action::Refused),
        Phase::Failed => (phase, Action::Refused),
    }
}

/// The frame under assembly after `event` came in `phase`: emptied when a cycle
/// begins or ends, given an image when a frame of a known kind was read, and
/// else as it was. A later image of a kind takes the place of an earlier one.
pub open spec fn assemble(setup: Setup, phase: Phase, event: Event, building: FrameView) -> FrameView {
    match (phase, event) {
        (Phase::Idle, Event::Begin) => empty_frame(setup.w, setup.h),
        (Phase::ReadingDepth { .. }, Event::DepthSamples(samples)) => match depth_image(
            samples@,
            setup.w,
            setup.h,
        ) {
            Ok(pixels) => FrameView { depth: Some(pixels), ..building },
            Err(_) => building,
        },
        (Phase::ReadingColor { .. }, Event::ColorBytes(bytes)) => match color_image(
            bytes@,
            setup.w,
            setup.h,
        ) {
            Ok(pixels) => FrameView { color: Some(pixels), ..building },
            Err(_) => building,
        },
        (Phase::ReleasingFrameSet { healthy: true }, Event::Done) => empty_frame(setup.w, setup.h),
        _ => building,
    }
}

/// The finished frame after `event` came in `phase`: the assembled frame when a
/// cycle ends in good order, and else as it was.
pub open spec fn complete(
    phase: Phase,
    event: Event,
    building: FrameView,
    completed: Option<FrameView>,
) -> Option<FrameView> {
    match (phase, event) {
        (Phase::ReleasingFrameSet { healthy: true }, Event::Done) => Some(building),
        _ => completed,
    }
}

} // verus!
