//! The capture session: one selected camera, its stream requests, and the
//! protocol state.

use vstd::prelude::*;
use crate::decode::buffer_size;
use crate::decode::decode_color;
use crate::decode::decode_depth;
use crate::decode::CHANNELS;
use crate::device::get_realsense_camera;
use crate::device::is_last_match;
use crate::device::DeviceInfo;
use crate::device::VENDOR_NAME;
use crate::frame::empty_frame;
use crate::frame::Frame;
use crate::frame::FrameView;
use crate::protocol::assemble;
use crate::protocol::complete;
use crate::protocol::enable;
use crate::protocol::step;
use crate::protocol::Action;
use crate::protocol::Event;
use crate::protocol::Phase;
use crate::protocol::Setup;
use crate::protocol::WAIT_TIMEOUT_MS;
use crate::stream::requested_streams;
use crate::stream::stream_requests;
use crate::stream::StreamRequest;

verus! {

/// A capture session on one camera.
///
/// The session owns no handle of the camera SDK. It decides; a driver performs
/// every [`Action`] that [`RealSense::run`] returns and reports the outcome as
/// the next [`Event`].
#[derive(Debug)]
pub struct RealSense {
    frame_w: u32,
    frame_h: u32,
    device: usize,
    requests: Vec<StreamRequest>,
    phase: Phase,
    building: Frame,
    completed: Option<Frame>,
}

/// A frame that may be absent, as plain values.
pub open spec fn frame_view(frame: Option<Frame>) -> Option<FrameView> {
    match frame {
        Some(f) => Some(f@),
        None => None,
    }
}

/// The position of a session's camera, where there is a session.
pub open spec fn chosen_device(session: Option<RealSense>) -> Option<usize> {
    match session {
        Some(s) => Some(s.device()),
        None => None,
    }
}

impl RealSense {
    /// The stream requests and the frame size, fixed when the session is made.
    pub closed spec fn setup(&self) -> Setup {
        Setup { requests: self.requests@, w: self.frame_w, h: self.frame_h }
    }

    /// Position of the session's camera in the list it was chosen from.
    pub closed spec fn spec_device(&self) -> usize {
        self.device
    }

    /// Where the session stands.
    pub closed spec fn spec_phase(&self) -> Phase {
        self.phase
    }

    /// The frame under assembly.
    pub closed spec fn building(&self) -> FrameView {
        self.building@
    }

    /// The frame of the last complete cycle, until it is taken.
    pub closed spec fn completed(&self) -> Option<FrameView> {
        frame_view(self.completed)
    }

    /// A session as [`RealSense::open_session`] makes it: not started, with no
    /// image.
    pub open spec fn is_fresh(&self, requests: Seq<StreamRequest>, w: u32, h: u32) -> bool {
        &&& self.setup() == (Setup { requests, w, h })
        &&& self.phase() == Phase::NotStarted
        &&& self.building() == empty_frame(w, h)
        &&& self.completed() is None
    }

    /// Makes a session for colour and depth on the last supported camera among
    /// `devices`; `None` where there is none.
    pub fn new(fps: i32, camera_width: u32, camera_height: u32, devices: &[DeviceInfo]) -> (session:
        Option<RealSense>)
        ensures
            is_last_match(devices@, VENDOR_NAME@, chosen_device(session)),
            session matches Some(s) ==> s.is_fresh(
                requested_streams(fps, camera_width, camera_height, true, true),
                camera_width,
                camera_height,
            ),
    {
        RealSense::open_session(fps, camera_width, camera_height, true, true, devices)
    }

    /// Makes a session for the wanted streams on the last supported camera
    /// among `devices`; `None` where there is none.
    pub fn open_session(
        fps: i32,
        width: u32,
        height: u32,
        wants_color: bool,
        wants_depth: bool,
        devices: &[DeviceInfo],
    ) -> (session: Option<RealSense>)
        ensures
            is_last_match(devices@, VENDOR_NAME@, chosen_device(session)),
            session matches Some(s) ==> s.is_fresh(
                requested_streams(fps, width, height, wants_color, wants_depth),
                width,
                height,
            ),
    {
        match get_realsense_camera(devices) {
            Some(device) => Some(
                RealSense {
                    frame_w: width,
                    frame_h: height,
                    device,
                    requests: stream_requests(fps, width, height, wants_color, wants_depth),
                    phase: Phase::NotStarted,
                    building: Frame::empty(width, height),
                    completed: None,
                },
            ),
            None => None,
        }
    }

    /// Width of the session's frames, in pixels.
    pub fn frame_w(&self) -> (w: u32)
        ensures
            w == self.setup().w,
    {
        self.frame_w
    }

    /// Height of the session's frames, in pixels.
    pub fn frame_h(&self) -> (h: u32)
        ensures
            h == self.setup().h,
    {
        self.frame_h
    }

    /// The session's stream requests, in the order in which they are enabled.
    pub fn requests(&self) -> (requests: &[StreamRequest])
        ensures
            requests@ == self.setup().requests,
    {
        self.requests.as_slice()
    }

    /// Position of the session's camera in the list it was chosen from.
    #[verifier::when_used_as_spec(spec_device)]
    pub fn device(&self) -> (device: usize)
        ensures
            device == self.spec_device(),
    {
        self.device
    }

    /// Where the session stands.
    #[verifier::when_used_as_spec(spec_phase)]
    pub fn phase(&self) -> (phase: Phase)
        ensures
            phase == self.spec_phase(),
    {
        self.phase
    }

    /// Takes the frame of the last complete cycle; `None` where no cycle has
    /// completed since the last take.
    pub fn take_frame(&mut self) -> (frame: Option<Frame>)
        ensures
            frame_view(frame) == old(self).completed(),
            final(self).completed() is None,
            final(self).building() == old(self).building(),
            final(self).phase() == old(self).phase(),
            final(self).setup() == old(self).setup(),
            final(self).device() == old(self).device(),
    {
        self.completed.take()
    }

    /// Takes in a command or the outcome of the pending request, and returns
    /// what the driver is to do next.
    pub fn run(&mut self, event: Event<'_>) -> (action: Action)
        ensures
            (final(self).phase(), action) == step(old(self).setup(), old(self).phase(), event),
            final(self).building() == assemble(
                old(self).setup(),
                old(self).phase(),
                event,
                old(self).building(),
            ),
            final(self).completed() == complete(
                old(self).phase(),
                event,
                old(self).building(),
                old(self).completed(),
            ),
            final(self).setup() == old(self).setup(),
            final(self).device() == old(self).device(),
    {
        let done: bool = match event {
            Event::Done => true,
            _ => false,
        };
        let (next, action): (Phase, Action) = match self.phase {
            Phase::NotStarted => match event {
                Event::Open => (Phase::CreatingPipeline, Action::CreatePipeline),
                Event::Close => (Phase::Stopped, Action::Closed),
                _ => (Phase::NotStarted, Action::Refused),
            },
            Phase::CreatingPipeline => if done {
                (Phase::CreatingConfig, Action::CreateConfig)
            } else {
                (Phase::Failed, Action::Abort)
            },
            Phase::CreatingConfig => if done {
                self.enable_or_start(0)
            } else {
                (Phase::ReleasingPipeline { healthy: false }, Action::ReleasePipeline)
            },
            Phase::EnablingStream { next } => if done {
                if next < self.requests.len() {
                    self.enable_or_start(next + 1)
                } else {
                    (Phase::Starting, Action::StartPipeline)
                }
            } else {
                (Phase::ReleasingConfig { healthy: false }, Action::ReleaseConfig)
            },
            Phase::Starting => if done {
                (Phase::Idle, Action::Ready)
            } else {
                (Phase::ReleasingConfig { healthy: false }, Action::ReleaseConfig)
            },
            Phase::Idle => match event {
                Event::Begin => {
                    self.building = Frame::empty(self.frame_w, self.frame_h);
                    (Phase::AwaitingFrames, Action::WaitForFrames { timeout_ms: WAIT_TIMEOUT_MS })
                },
                Event::Close => (Phase::Stopping { healthy: true }, Action::StopPipeline),
                _ => (Phase::Idle, Action::Refused),
            },
            Phase::AwaitingFrames => if done {
                (Phase::AwaitingCount, Action::CountFrames)
            } else {
                (Phase::Stopping { healthy: false }, Action::StopPipeline)
            },
            Phase::AwaitingCount => match event {
                Event::Count(count) => if 0 < count {
                    (Phase::AwaitingFrame { index: 0, count }, Action::ExtractFrame { index: 0 })
                } else {
                    (Phase::ReleasingFrameSet { healthy: true }, Action::ReleaseFrameSet)
                },
                _ => (Phase::ReleasingFrameSet { healthy: false }, Action::ReleaseFrameSet),
            },
            Phase::AwaitingFrame { index, count } => if done {
                (Phase::CheckingDepth { index, count }, Action::CheckDepth)
            } else {
                (Phase::ReleasingFrameSet { healthy: false }, Action::ReleaseFrameSet)
            },
            Phase::CheckingDepth { index, count } => match event {
                Event::Extendable(true) => match buffer_size(self.frame_w, self.frame_h) {
                    Some(size) => (
                        Phase::ReadingDepth { index, count },
                        Action::ReadDepth { samples: size / CHANNELS },
                    ),
                    None => (
                        Phase::ReleasingFrame { index, count, healthy: false },
                        Action::ReleaseFrame { index },
                    ),
                },
                Event::Extendable(false) => (
                    Phase::CheckingVideo { index, count },
                    Action::CheckVideo,
                ),
                _ => (
                    Phase::ReleasingFrame { index, count, healthy: false },
                    Action::ReleaseFrame { index },
                ),
            },
            Phase::CheckingVideo { index, count } => match event {
                Event::Extendable(true) => match buffer_size(self.frame_w, self.frame_h) {
                    Some(size) => (
                        Phase::ReadingColor { index, count },
                        Action::ReadColor { bytes: size },
                    ),
                    None => (
                        Phase::ReleasingFrame { index, count, healthy: false },
                        Action::ReleaseFrame { index },
                    ),
                },
                Event::Extendable(false) => (
                    Phase::ReleasingFrame { index, count, healthy: true },
                    Action::ReleaseFrame { index },
                ),
                _ => (
                    Phase::ReleasingFrame { index, count, healthy: false },
                    Action::ReleaseFrame { index },
                ),
            },
            Phase::ReadingDepth { index, count } => {
                let healthy: bool = match event {
                    Event::DepthSamples(samples) => match decode_depth(
                        samples,
                        self.frame_w,
                        self.frame_h,
                    ) {
                        Ok(image) => {
                            self.building.set_depth(image.pixel_data);
                            true
                        },
                        Err(_) => false,
                    },
                    _ => false,
                };
                (Phase::ReleasingFrame { index, count, healthy }, Action::ReleaseFrame { index })
            },
            Phase::ReadingColor { index, count } => {
                let healthy: bool = match event {
                    Event::ColorBytes(bytes) => match decode_color(
                        bytes,
                        self.frame_w,
                        self.frame_h,
                    ) {
                        Ok(image) => {
                            self.building.set_color(image.pixel_data);
                            true
                        },
                        Err(_) => false,
                    },
                    _ => false,
                };
                (Phase::ReleasingFrame { index, count, healthy }, Action::ReleaseFrame { index })
            },
            Phase::ReleasingFrame { index, count, healthy } => if healthy && done {
                if index < count && index + 1 < count {
                    (
                        Phase::AwaitingFrame { index: index + 1, count },
                        Action::ExtractFrame { index: index + 1 },
                    )
                } else {
                    (Phase::ReleasingFrameSet { healthy: true }, Action::ReleaseFrameSet)
                }
            } else {
                (Phase::ReleasingFrameSet { healthy: false }, Action::ReleaseFrameSet)
            },
            Phase::ReleasingFrameSet { healthy } => if healthy && done {
                let mut finished: Frame = Frame::empty(self.frame_w, self.frame_h);
                core::mem::swap(&mut self.building, &mut finished);
                self.completed = Some(finished);
                (Phase::Idle, Action::Deliver)
            } else {
                (Phase::Stopping { healthy: false }, Action::StopPipeline)
            },
            Phase::Stopping { healthy } => (
                Phase::ReleasingConfig { healthy: healthy && done },
                Action::ReleaseConfig,
            ),
            Phase::ReleasingConfig { healthy } => (
                Phase::ReleasingPipeline { healthy: healthy && done },
                Action::ReleasePipeline,
            ),
            Phase::ReleasingPipeline { healthy } => if healthy && done {
                (Phase::Stopped, Action::Closed)
            } else {
                (Phase::Failed, Action::Abort)
            },
            Phase::Stopped => (Phase::Stopped, Action::Refused),
            Phase::Failed => (Phase::Failed, Action::Refused),
        };
        self.phase = next;
        action
    }

    /// The step that enables request number `next`, or starts the pipeline
    /// where no such request is left.
    fn enable_or_start(&self, next: usize) -> (reply: (Phase, Action))
        ensures
            reply == if next < self.setup().requests.len() {
                enable(self.setup(), next as int)
            } else {
                (Phase::Starting, Action::StartPipeline)
            },
    {
        if next < self.requests.len() {
            (Phase::EnablingStream { next }, Action::EnableStream(self.requests[next]))
        } else {
            (Phase::Starting, Action::StartPipeline)
        }
    }
}

} // verus!
