//! Conversion of a captured frame to RGB, and the frame's average colour.

use vstd::prelude::*;
use yuv::{YuvPackedImage, YuvRange, YuvStandardMatrix};
use crate::color::Color;
use crate::error::CoreError;
use crate::frame::{average_rgb, averageable, ColorMatrix, FrameGeometry};
use crate::palette::{nearest_index, ClosestColor, Palette};

verus! {

/// The error type of the `yuv` crate, carried through unread.
#[verifier::external_type_specification]
#[verifier::external_body]
pub struct ExYuvError(yuv::YuvError);

/// Strides and a destination buffer that fit a geometry: rows packed without
/// padding, at two bytes per pixel in and three out.
pub open spec fn destination_fits(
    yuyv_stride: u32,
    width: u32,
    height: u32,
    rgb_len: nat,
    rgb_stride: u32,
) -> bool {
    let g = FrameGeometry { width, height };
    &&& g.wf()
    &&& yuyv_stride == g.yuyv_stride()
    &&& rgb_stride == g.rgb_stride()
    &&& rgb_len == g.rgb_bytes()
}

/// Calls `yuv::yuyv422_to_rgb` on a packed YUYV frame, full range, with the
/// chosen matrix, writing RGB triples into `rgb`.
///
/// Trusted: with strides and destination as `destination_fits` asks, the
/// only one of the crate's size checks left open is that the frame holds
/// exactly `yuyv_stride * height` bytes; the call returns `Ok` if it does
/// and an error if it does not, and has no other failing path. The
/// destination is written in place and keeps its length. Nothing is claimed
/// about the pixel values: the crate picks among vectorised and scalar
/// kernels by processor, and they round differently.
#[verifier::external_body]
fn yuyv422_to_rgb(
    frame: &[u8],
    yuyv_stride: u32,
    width: u32,
    height: u32,
    rgb: &mut Vec<u8>,
    rgb_stride: u32,
    matrix: ColorMatrix,
) -> (res: Result<(), yuv::YuvError>)
    requires
        destination_fits(yuyv_stride, width, height, old(rgb)@.len(), rgb_stride),
    ensures
        res is Ok <==> frame@.len() == yuyv_stride * height,
        final(rgb)@.len() == old(rgb)@.len(),
{
    let image = YuvPackedImage { yuy: frame, yuy_stride: yuyv_stride, width, height };
    let (range, standard) = match matrix {
        ColorMatrix::Bt709Full => (YuvRange::Full, YuvStandardMatrix::Bt709),
        ColorMatrix::FccFull => (YuvRange::Full, YuvStandardMatrix::Fcc),
    };
    yuv::yuyv422_to_rgb(&image, rgb.as_mut_slice(), rgb_stride, range, standard)
}

/// What becomes of a frame of `frame_len` bytes under a geometry: a
/// geometry that no frame can have is a configuration error; a frame that
/// does not hold exactly the geometry's pixels at two bytes each is refused
/// by the converter; any other frame is converted.
pub open spec fn frame_verdict(frame_len: nat, geometry: FrameGeometry) -> Option<CoreError> {
    if !geometry.wf() {
        Some(CoreError::ConfigInvalid)
    } else if frame_len != geometry.yuyv_bytes() {
        Some(CoreError::DecodeFailed)
    } else {
        None
    }
}

/// Converts a packed YUYV frame of the given geometry to RGB.
///
/// The result holds three bytes per pixel, red first, rows packed without
/// padding.
pub fn convert_frame(frame: &[u8], geometry: &FrameGeometry, matrix: ColorMatrix) -> (res: Result<
    Vec<u8>,
    CoreError,
>)
    ensures
        match frame_verdict(frame@.len(), *geometry) {
            Some(e) => res == Err::<Vec<u8>, CoreError>(e),
            None => res is Ok,
        },
        res matches Ok(rgb) ==> rgb@.len() == geometry.rgb_bytes() && averageable(rgb@),
{
    if !geometry.is_valid() {
        return Err(CoreError::ConfigInvalid);
    }
    let pixels: usize = geometry.pixel_count();
    let mut rgb: Vec<u8> = vec![0u8; pixels * 3];
    assert(geometry.width * 3 <= geometry.width * geometry.height * 3) by (nonlinear_arith)
        requires
            geometry.height >= 1,
    ;
    let yuyv_stride: u32 = geometry.width * 2;
    let rgb_stride: u32 = geometry.width * 3;
    assert(yuyv_stride * geometry.height == geometry.yuyv_bytes()) by (nonlinear_arith)
        requires
            yuyv_stride == geometry.width * 2,
            geometry.yuyv_bytes() == geometry.width * geometry.height * 2,
    ;
    match yuyv422_to_rgb(
        frame,
        yuyv_stride,
        geometry.width,
        geometry.height,
        &mut rgb,
        rgb_stride,
        matrix,
    ) {
        Ok(()) => Ok(rgb),
        Err(_) => Err(CoreError::DecodeFailed),
    }
}

/// Average colour of a packed YUYV frame: the frame is converted to RGB and
/// each channel averaged over all pixels, as `average_rgb` does.
pub fn average_frame(frame: &[u8], geometry: &FrameGeometry, matrix: ColorMatrix) -> (res: Result<
    Color,
    CoreError,
>)
    ensures
        match frame_verdict(frame@.len(), *geometry) {
            Some(e) => res == Err::<Color, CoreError>(e),
            None => res is Ok,
        },
{
    match convert_frame(frame, geometry, matrix) {
        Ok(rgb) => average_rgb(rgb.as_slice()),
        Err(e) => Err(e),
    }
}

/// Average colour of a packed YUYV frame and its label under `palette`.
///
/// The colour is whatever `average_frame` finds; the label is that of the
/// palette entry nearest to it.
pub fn frame_closest_color(
    frame: &[u8],
    geometry: &FrameGeometry,
    matrix: ColorMatrix,
    palette: &Palette,
) -> (res: Result<(Color, ClosestColor), CoreError>)
    ensures
        match frame_verdict(frame@.len(), *geometry) {
            Some(e) => res == Err::<(Color, ClosestColor), CoreError>(e),
            None => res is Ok,
        },
        res matches Ok((color, label)) ==> label == palette@[nearest_index(palette@, color)].label,
{
    match average_frame(frame, geometry, matrix) {
        Ok(color) => {
            let label = palette.closest(&color);
            Ok((color, label))
        },
        Err(e) => Err(e),
    }
}

} // verus!
