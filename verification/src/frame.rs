//! The images of one capture cycle.

use vstd::prelude::*;

verus! {

/// What one capture cycle produced: at most one colour image and at most one
/// depth image, both `w` by `h` pixels of three bytes.
#[derive(Debug)]
pub struct Frame {
    pub w: u32,
    pub h: u32,
    pub bgr_img: Option<Box<Vec<u8>>>,
    pub depth_img: Option<Box<Vec<u8>>>,
}

/// A [`Frame`] as plain values.
pub ghost struct FrameView {
    pub w: u32,
    pub h: u32,
    pub color: Option<Seq<u8>>,
    pub depth: Option<Seq<u8>>,
}

/// The frame of the given size that holds no image.
pub open spec fn empty_frame(w: u32, h: u32) -> FrameView {
    FrameView { w, h, color: None, depth: None }
}

impl View for Frame {
    type V = FrameView;

    open spec fn view(&self) -> FrameView {
        FrameView {
            w: self.w,
            h: self.h,
            color: match self.bgr_img {
                Some(pixels) => Some(pixels@),
                None => None,
            },
            depth: match self.depth_img {
                Some(pixels) => Some(pixels@),
                None => None,
            },
        }
    }
}

impl Frame {
    /// A frame of the given size that holds no image.
    pub fn empty(w: u32, h: u32) -> (frame: Frame)
        ensures
            frame@ == empty_frame(w, h),
    {
        Frame { w, h, bgr_img: None, depth_img: None }
    }

    /// Stores a colour image, in place of an earlier one.
    pub fn set_color(&mut self, pixels: Vec<u8>)
        ensures
            final(self)@ == (FrameView { color: Some(pixels@), ..old(self)@ }),
    {
        self.bgr_img = Some(Box::new(pixels));
    }

    /// Stores a depth image, in place of an earlier one.
    pub fn set_depth(&mut self, pixels: Vec<u8>)
        ensures
            final(self)@ == (FrameView { depth: Some(pixels@), ..old(self)@ }),
    {
        self.depth_img = Some(Box::new(pixels));
    }
}

} // verus!
