//! Stream requests: what a session asks the camera to deliver.

use vstd::prelude::*;

verus! {

/// The stream index used for every request; a camera with several streams of
/// one kind numbers them from here.
pub const STREAM_INDEX: i32 = 0;

/// What a stream carries.
#[derive(Clone, Copy, Debug, PartialEq, Eq, Structural)]
pub enum StreamKind {
    Color,
    Depth,
}

/// How the pixels of a stream are laid out.
#[derive(Clone, Copy, Debug, PartialEq, Eq, Structural)]
pub enum PixelFormat {
    /// Three bytes per pixel: blue, green, red.
    Bgr8,
    /// One unsigned 16-bit depth sample per pixel.
    Z16,
}

/// One stream asked of the camera. A session's requests are fixed when it is
/// made.
#[derive(Clone, Copy, Debug, PartialEq, Eq, Structural)]
pub struct StreamRequest {
    pub kind: StreamKind,
    pub index: i32,
    pub width: u32,
    pub height: u32,
    pub pixel_format: PixelFormat,
    pub fps: i32,
}

/// The request for the colour stream.
pub open spec fn color_request(fps: i32, width: u32, height: u32) -> StreamRequest {
    StreamRequest {
        kind: StreamKind::Color,
        index: STREAM_INDEX,
        width,
        height,
        pixel_format: PixelFormat::Bgr8,
        fps,
    }
}

/// The request for the depth stream.
pub open spec fn depth_request(fps: i32, width: u32, height: u32) -> StreamRequest {
    StreamRequest {
        kind: StreamKind::Depth,
        index: STREAM_INDEX,
        width,
        height,
        pixel_format: PixelFormat::Z16,
        fps,
    }
}

/// The requests of a session, in the order in which they are enabled: colour
/// before depth.
pub open spec fn requested_streams(
    fps: i32,
    width: u32,
    height: u32,
    wants_color: bool,
    wants_depth: bool,
) -> Seq<StreamRequest> {
    let color = if wants_color {
        seq![color_request(fps, width, height)]
    } else {
        Seq::<StreamRequest>::empty()
    };
    let depth = if wants_depth {
        seq![depth_request(fps, width, height)]
    } else {
        Seq::<StreamRequest>::empty()
    };
    color + depth
}

impl StreamRequest {
    /// The request for the colour stream.
    pub fn color(fps: i32, width: u32, height: u32) -> (request: StreamRequest)
        ensures
            request == color_request(fps, width, height),
    {
        StreamRequest {
            kind: StreamKind::Color,
            index: STREAM_INDEX,
            width,
            height,
            pixel_format: PixelFormat::Bgr8,
            fps,
        }
    }

    /// The request for the depth stream.
    pub fn depth(fps: i32, width: u32, height: u32) -> (request: StreamRequest)
        ensures
            request == depth_request(fps, width, height),
    {
        StreamRequest {
            kind: StreamKind::Depth,
            index: STREAM_INDEX,
            width,
            height,
            pixel_format: PixelFormat::Z16,
            fps,
        }
    }
}

/// Builds the requests of a session.
pub fn stream_requests(
    fps: i32,
    width: u32,
    height: u32,
    wants_color: bool,
    wants_depth: bool,
) -> (requests: Vec<StreamRequest>)
    ensures
        requests@ == requested_streams(fps, width, height, wants_color, wants_depth),
{
    let mut requests: Vec<StreamRequest> = Vec::new();
    if wants_color {
        requests.push(StreamRequest::color(fps, width, height));
    }
    if wants_depth {
        requests.push(StreamRequest::depth(fps, width, height));
    }
    assert(requests@ =~= requested_streams(fps, width, height, wants_color, wants_depth));
    requests
}

} // verus!
