//! Frames: complete pixel images in RGB24, row-major, three bytes per pixel
//! and no padding. This is the layout of a raw frame on the wire and of every
//! picture the engine hands out for drawing.

use crate::{dim_channel, scale_channel, Color};
use vstd::prelude::*;

verus! {

/// A pixel image of `width * height` pixels with its RGB24 bytes.
///
/// The byte count always matches the dimensions, so every pixel inside the
/// frame can be read.
#[derive(Debug, PartialEq, Eq)]
pub struct Frame {
    width: u32,
    height: u32,
    data: Vec<u8>,
}

/// A frame as a mathematical value.
pub struct FrameView {
    pub width: u32,
    pub height: u32,
    pub data: Seq<u8>,
}

/// Every byte of `data` dimmed to `brightness` percent.
pub open spec fn dimmed_bytes(data: Seq<u8>, brightness: u8) -> Seq<u8> {
    Seq::new(data.len(), |i: int| scale_channel(data[i], brightness))
}

impl FrameView {
    /// The byte count matches the dimensions.
    pub open spec fn well_formed(self) -> bool {
        self.data.len() == self.width * self.height * 3
    }

    /// Where the red byte of pixel (`x`, `y`) stands in the data.
    pub open spec fn offset(self, x: int, y: int) -> int {
        (y * self.width + x) * 3
    }

    /// The colour of pixel (`x`, `y`), counted from the top left corner.
    pub open spec fn pixel(self, x: int, y: int) -> Color {
        let at = self.offset(x, y);
        Color { r: self.data[at], g: self.data[at + 1], b: self.data[at + 2] }
    }

    /// This frame with every channel of every pixel dimmed.
    pub open spec fn dimmed(self, brightness: u8) -> FrameView {
        FrameView { data: dimmed_bytes(self.data, brightness), ..self }
    }
}

impl View for Frame {
    type V = FrameView;

    closed spec fn view(&self) -> FrameView {
        FrameView { width: self.width, height: self.height, data: self.data@ }
    }
}

/// The pixels of a well-formed frame lie inside its data: the three bytes of
/// pixel (`x`, `y`) end before the data does.
pub proof fn pixel_lies_inside(frame: FrameView, x: int, y: int)
    requires
        frame.well_formed(),
        0 <= x < frame.width,
        0 <= y < frame.height,
    ensures
        0 <= frame.offset(x, y),
        frame.offset(x, y) + 3 <= frame.data.len(),
{
    let w = frame.width as int;
    let h = frame.height as int;
    assert(y * w + x + 1 <= h * w) by (nonlinear_arith)
        requires
            0 <= x < w,
            0 <= y < h,
    ;
    assert(0 <= y * w) by (nonlinear_arith)
        requires
            0 <= y,
            0 <= w,
    ;
    assert(h * w == w * h) by (nonlinear_arith);
}

/// Dim every byte of `data` to `brightness` percent.
pub fn dim_bytes(data: &Vec<u8>, brightness: u8) -> (out: Vec<u8>)
    ensures
        out@ == dimmed_bytes(data@, brightness),
{
    let mut out: Vec<u8> = Vec::with_capacity(data.len());
    let mut i: usize = 0;
    while i < data.len()
        invariant
            i <= data.len(),
            out@.len() == i,
            forall|j: int| 0 <= j < i ==> out@[j] == scale_channel(data@[j], brightness),
        decreases data.len() - i,
    {
        out.push(dim_channel(data[i], brightness));
        i += 1;
    }
    assert(out@ =~= dimmed_bytes(data@, brightness));
    out
}

impl Frame {
    #[verifier::type_invariant]
    spec fn sized(self) -> bool {
        self.data@.len() == self.width * self.height * 3
    }

    /// A frame from its dimensions and bytes, if the byte count is
    /// `width * height * 3`.
    pub fn new(width: u32, height: u32, data: Vec<u8>) -> (frame: Option<Frame>)
        ensures
            frame is Some <==> data@.len() == width * height * 3,
            frame matches Some(f) ==> f@ == (FrameView { width, height, data: data@ }),
    {
        assert(width * height <= 0xffff_ffff * 0xffff_ffff) by (nonlinear_arith)
            requires
                0 <= width <= 0xffff_ffff,
                0 <= height <= 0xffff_ffff,
        ;
        let expected: u128 = (width as u128) * (height as u128) * 3;
        if data.len() as u128 == expected {
            Some(Frame { width, height, data })
        } else {
            None
        }
    }

    /// The number of pixels in a row.
    pub fn width(&self) -> (width: u32)
        ensures
            width == self@.width,
            self@.well_formed(),
    {
        proof {
            use_type_invariant(self);
        }
        self.width
    }

    /// The number of rows.
    pub fn height(&self) -> (height: u32)
        ensures
            height == self@.height,
    {
        self.height
    }

    /// The RGB24 bytes, row by row.
    pub fn data(&self) -> (data: &Vec<u8>)
        ensures
            data@ == self@.data,
            self@.well_formed(),
    {
        proof {
            use_type_invariant(self);
        }
        &self.data
    }

    /// The RGB24 bytes, row by row, leaving the frame behind.
    pub fn into_data(self) -> (data: Vec<u8>)
        ensures
            data@ == self@.data,
            self@.well_formed(),
    {
        proof {
            use_type_invariant(&self);
        }
        self.data
    }

    /// The colour of pixel (`x`, `y`), counted from the top left corner.
    pub fn pixel(&self, x: u32, y: u32) -> (color: Color)
        requires
            x < self@.width,
            y < self@.height,
        ensures
            color == self@.pixel(x as int, y as int),
    {
        let len: usize = self.data.len();
        proof {
            use_type_invariant(self);
            pixel_lies_inside(self@, x as int, y as int);
            let row = (y as int) * (self.width as int);
            assert(0 <= row) by (nonlinear_arith)
                requires
                    row == (y as int) * (self.width as int),
                    0 <= y,
                    0 <= self.width,
            ;
            assert(self@.offset(x as int, y as int) == (row + x) * 3);
            assert((row + x) * 3 + 3 <= len);
        }
        let row: usize = (y as usize) * (self.width as usize);
        let at: usize = (row + (x as usize)) * 3;
        Color { r: self.data[at], g: self.data[at + 1], b: self.data[at + 2] }
    }

    /// This frame with brightness applied to every channel of every pixel.
    pub fn dimmed(&self, brightness: u8) -> (out: Frame)
        ensures
            out@ == self@.dimmed(brightness),
    {
        proof {
            use_type_invariant(self);
        }
        Frame { width: self.width, height: self.height, data: dim_bytes(&self.data, brightness) }
    }

    /// A copy of this frame.
    pub fn duplicate(&self) -> (out: Frame)
        ensures
            out@ == self@,
    {
        proof {
            use_type_invariant(self);
        }
        let data = dim_bytes(&self.data, 100);
        assert(data@ =~= self.data@);
        Frame { width: self.width, height: self.height, data }
    }
}

/// Brightness applied to a whole frame is brightness applied to each of its
/// pixels.
pub proof fn dimmed_frame_dims_each_pixel(frame: FrameView, brightness: u8, x: int, y: int)
    requires
        frame.well_formed(),
        0 <= x < frame.width,
        0 <= y < frame.height,
    ensures
        frame.dimmed(brightness).well_formed(),
        frame.dimmed(brightness).pixel(x, y) == frame.pixel(x, y).dimmed(brightness),
{
    pixel_lies_inside(frame, x, y);
}

} // verus!
