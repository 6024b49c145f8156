//! What one capture cycle delivers.
//!
//! A cycle waits for a frame set, takes its frames in the order of their
//! numbers, decodes those of a known kind, and releases each frame before it
//! takes the next. The model here serves a session the outcomes that a camera
//! with a given frame set produces, and the proofs say which frame the session
//! then holds.

use vstd::prelude::*;
use crate::decode::color_image;
use crate::decode::depth_image;
use crate::frame::empty_frame;
use crate::frame::FrameView;
use crate::protocol::assemble;
use crate::protocol::complete;
use crate::protocol::step;
use crate::protocol::Action;
use crate::protocol::Event;
use crate::protocol::Phase;
use crate::protocol::Setup;

verus! {

/// What the camera holds in one frame of a frame set.
pub ghost enum Payload<'a> {
    /// A depth frame and its samples.
    Depth(&'a [u16]),
    /// A video frame and its bytes.
    Video(&'a [u8]),
    /// A frame that is neither.
    Other,
}

/// A session's state as plain values.
pub ghost struct Snapshot {
    pub phase: Phase,
    pub building: FrameView,
    pub completed: Option<FrameView>,
}

/// The session's state after one event.
pub open spec fn advance(setup: Setup, state: Snapshot, event: Event) -> Snapshot {
    Snapshot {
        phase: step(setup, state.phase, event).0,
        building: assemble(setup, state.phase, event, state.building),
        completed: complete(state.phase, event, state.building, state.completed),
    }
}

/// Whether a frame of the session's size can be decoded from the payload.
pub open spec fn readable(setup: Setup, payload: Payload) -> bool {
    match payload {
        Payload::Depth(samples) => depth_image(samples@, setup.w, setup.h) is Ok,
        Payload::Video(bytes) => color_image(bytes@, setup.w, setup.h) is Ok,
        Payload::Other => true,
    }
}

/// The frame once the payload's image has been put into it. A frame of
/// neither kind leaves it as it was.
pub open spec fn absorb(setup: Setup, frame: FrameView, payload: Payload) -> FrameView {
    match payload {
        Payload::Depth(samples) => match depth_image(samples@, setup.w, setup.h) {
            Ok(pixels) => FrameView { depth: Some(pixels), ..frame },
            Err(_) => frame,
        },
        Payload::Video(bytes) => match color_image(bytes@, setup.w, setup.h) {
            Ok(pixels) => FrameView { color: Some(pixels), ..frame },
            Err(_) => frame,
        },
        Payload::Other => frame,
    }
}

/// The frame once the images of all payloads have been put into it, in their
/// order: of each kind the last one stays.
pub open spec fn absorb_all(setup: Setup, frame: FrameView, payloads: Seq<Payload>) -> FrameView
    decreases payloads.len(),
{
    if payloads.len() == 0 {
        frame
    } else {
        absorb(setup, absorb_all(setup, frame, payloads.drop_last()), payloads.last())
    }
}

/// The frame that a cycle over the given frame set delivers.
pub open spec fn captured(setup: Setup, payloads: Seq<Payload>) -> FrameView {
    absorb_all(setup, empty_frame(setup.w, setup.h), payloads)
}

/// The session's state after it has been served one frame: the frame is
/// extracted, it answers to its kind, hands over its data where it has a kind,
/// and is released.
pub open spec fn after_frame(setup: Setup, state: Snapshot, payload: Payload) -> Snapshot {
    let extracted = advance(setup, state, Event::Done);
    let read = match payload {
        Payload::Depth(samples) => advance(
            setup,
            advance(setup, extracted, Event::Extendable(true)),
            Event::DepthSamples(samples),
        ),
        Payload::Video(bytes) => advance(
            setup,
            advance(
                setup,
                advance(setup, extracted, Event::Extendable(false)),
                Event::Extendable(true),
            ),
            Event::ColorBytes(bytes),
        ),
        Payload::Other => advance(
            setup,
            advance(setup, extracted, Event::Extendable(false)),
            Event::Extendable(false),
        ),
    };
    advance(setup, read, Event::Done)
}

/// The session's state after it has been served the given frames in order.
pub open spec fn after_frames(setup: Setup, state: Snapshot, payloads: Seq<Payload>) -> Snapshot
    decreases payloads.len(),
{
    if payloads.len() == 0 {
        state
    } else {
        after_frame(setup, after_frames(setup, state, payloads.drop_last()), payloads.last())
    }
}

/// The session's state after a whole cycle: the command to begin, the frame
/// set, its count, its frames, and the release of the frame set.
pub open spec fn after_cycle(setup: Setup, state: Snapshot, payloads: Seq<Payload>) -> Snapshot {
    let begun = advance(setup, state, Event::Begin);
    let waited = advance(setup, begun, Event::Done);
    let counted = advance(setup, waited, Event::Count(payloads.len() as u32));
    advance(setup, after_frames(setup, counted, payloads), Event::Done)
}

/// Where a cycle over `count` frames stands when `taken` of them are done.
pub open spec fn position(taken: int, count: u32) -> Phase {
    if taken < count {
        Phase::AwaitingFrame { index: taken as u32, count }
    } else {
        Phase::ReleasingFrameSet { healthy: true }
    }
}

/// Frames are taken in order: a session that awaits frame `taken` of `count`
/// and is served the next frames stands behind them, has put their images
/// into the frame under assembly, and has left the finished frame alone.
pub proof fn lemma_frames_in_order(
    setup: Setup,
    state: Snapshot,
    payloads: Seq<Payload>,
    taken: int,
    count: u32,
)
    requires
        0 <= taken,
        taken + payloads.len() <= count,
        state.phase == position(taken, count),
        forall|i: int| 0 <= i < payloads.len() ==> readable(setup, #[trigger] payloads[i]),
    ensures
        ({
            let end = after_frames(setup, state, payloads);
            &&& end.phase == position(taken + payloads.len(), count)
            &&& end.building == absorb_all(setup, state.building, payloads)
            &&& end.completed == state.completed
        }),
    decreases payloads.len(),
{
    if payloads.len() > 0 {
        let before = payloads.drop_last();
        lemma_frames_in_order(setup, state, before, taken, count);
        assert(readable(setup, payloads.last()));
    }
}

/// A whole cycle: a started session that is idle and is served a frame set in
/// which every frame can be decoded ends idle again, and its finished frame
/// holds, of each kind, the image of the last frame of that kind in the set.
pub proof fn lemma_cycle_delivers(setup: Setup, state: Snapshot, payloads: Seq<Payload>)
    requires
        state.phase == Phase::Idle,
        payloads.len() <= u32::MAX,
        forall|i: int| 0 <= i < payloads.len() ==> readable(setup, #[trigger] payloads[i]),
    ensures
        ({
            let end = after_cycle(setup, state, payloads);
            &&& end.phase == Phase::Idle
            &&& end.completed == Some(captured(setup, payloads))
            &&& end.building == empty_frame(setup.w, setup.h)
        }),
        step(
            setup,
            after_frames(
                setup,
                advance(
                    setup,
                    advance(setup, advance(setup, state, Event::Begin), Event::Done),
                    Event::Count(payloads.len() as u32),
                ),
                payloads,
            ).phase,
            Event::Done,
        ).1 == Action::Deliver,
{
    let count = payloads.len() as u32;
    let begun = advance(setup, state, Event::Begin);
    let waited = advance(setup, begun, Event::Done);
    let counted = advance(setup, waited, Event::Count(count));
    assert(counted.phase == position(0, count));
    assert(counted.building == empty_frame(setup.w, setup.h));
    lemma_frames_in_order(setup, counted, payloads, 0, count);
}

} // verus!
