//! Decoded pictures and the frames made of them.
//!
//! Pictures are decoded by the `image` crate and stay in its hands: scaling
//! and the conversion to RGB are its work. This module turns a decoded
//! picture into a [`Frame`] and says what is known of the result.

use crate::render::frame::{Frame, FrameView};
use crate::PanelConfig;
use vstd::prelude::*;

verus! {

/// A decoded picture of the `image` crate.
#[verifier::external_type_specification]
#[verifier::external_body]
pub struct ExDynamicImage(image::DynamicImage);

/// Width and height of a picture, in pixels.
pub uninterp spec fn picture_size(picture: image::DynamicImage) -> (u32, u32);

/// The samples of a picture converted to RGB with 8 bits per channel, row by
/// row, three to a pixel.
pub uninterp spec fn picture_rgb8(picture: image::DynamicImage) -> Seq<u8>;

/// Whether the buffers for a picture of this size, at up to 16 bytes to the
/// pixel, can be allocated at all.
pub open spec fn allocatable(width: u32, height: u32) -> bool {
    width * height * 16 <= isize::MAX
}

/// `GenericImageView::dimensions` of `image::DynamicImage`: the width and
/// height of the picture.
#[verifier::external_body]
fn dimensions_of(picture: &image::DynamicImage) -> (size: (u32, u32))
    ensures
        size == picture_size(*picture),
{
    image::GenericImageView::dimensions(picture)
}

/// `DynamicImage::to_rgb8`, with the buffer taken out of the result: the
/// picture as 8-bit RGB samples. There are at least three samples to every
/// pixel; a picture built on a larger buffer hands all of it out. Left out
/// are pictures too large for the conversion to allocate.
#[verifier::external_body]
fn rgb8_of(picture: &image::DynamicImage) -> (samples: Vec<u8>)
    requires
        allocatable(picture_size(*picture).0, picture_size(*picture).1),
    ensures
        samples@ == picture_rgb8(*picture),
        samples@.len() >= picture_size(*picture).0 * picture_size(*picture).1 * 3,
{
    picture.to_rgb8().into_raw()
}

/// `DynamicImage::resize_exact` with the Lanczos filter of window 3: a
/// picture of exactly `width` by `height` pixels, whatever the proportions
/// of the picture it is made from. Which samples it holds is left open:
/// they come from floating-point resampling. Left out are sizes for which
/// the resampling cannot allocate its buffers.
#[verifier::external_body]
fn resized_exactly(picture: &image::DynamicImage, width: u32, height: u32) -> (resized:
    image::DynamicImage)
    requires
        allocatable(picture_size(*picture).0, picture_size(*picture).1),
        allocatable(picture_size(*picture).0, height),
        allocatable(width, height),
    ensures
        picture_size(resized) == (width, height),
{
    picture.resize_exact(width, height, image::imageops::FilterType::Lanczos3)
}

/// Whether the buffers for a picture of this size can be allocated at all.
pub fn is_allocatable(width: u32, height: u32) -> (fits: bool)
    ensures
        fits == allocatable(width, height),
{
    assert(width * height <= 0xffff_ffff * 0xffff_ffff) by (nonlinear_arith)
        requires
            0 <= width <= 0xffff_ffff,
            0 <= height <= 0xffff_ffff,
    ;
    let bytes: u128 = (width as u128) * (height as u128) * 16;
    bytes <= isize::MAX as u128
}

/// The frame of a picture that is to be shown as it is, or `None` if the
/// picture is too large to convert.
///
/// The frame has the picture's size and holds its samples converted to RGB.
pub fn picture_frame(picture: &image::DynamicImage) -> (frame: Option<Frame>)
    ensures
        frame is Some <==> allocatable(picture_size(*picture).0, picture_size(*picture).1),
        frame matches Some(f) ==> f@ == (FrameView {
            width: picture_size(*picture).0,
            height: picture_size(*picture).1,
            data: picture_rgb8(*picture).take(
                picture_size(*picture).0 * picture_size(*picture).1 * 3,
            ),
        }),
        frame matches Some(f) ==> f@.well_formed(),
{
    let (width, height) = dimensions_of(picture);
    if !is_allocatable(width, height) {
        return None;
    }
    let mut samples = rgb8_of(picture);
    let ghost all = samples@;
    let length: usize = (width as usize) * (height as usize) * 3;
    samples.truncate(length);
    assert(samples@ =~= all.take(length as int));
    Frame::new(width, height, samples)
}

/// The frame of a picture scaled to fill the panel exactly, or `None` if the
/// picture or the panel is too large for the scaling.
///
/// The frame has the panel's size: `cols` wide and `rows` high.
pub fn resize_to_panel(picture: &image::DynamicImage, panel: PanelConfig) -> (frame: Option<
    Frame,
>)
    ensures
        frame is Some <==> {
            &&& allocatable(picture_size(*picture).0, picture_size(*picture).1)
            &&& allocatable(picture_size(*picture).0, panel.rows)
            &&& allocatable(panel.cols, panel.rows)
        },
        frame matches Some(f) ==> {
            &&& f@.width == panel.cols
            &&& f@.height == panel.rows
            &&& f@.well_formed()
        },
{
    let (width, height) = dimensions_of(picture);
    if !is_allocatable(width, height) || !is_allocatable(width, panel.rows) || !is_allocatable(
        panel.cols,
        panel.rows,
    ) {
        return None;
    }
    let resized = resized_exactly(picture, panel.cols, panel.rows);
    picture_frame(&resized)
}

} // verus!
