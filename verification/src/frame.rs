//! Frames: their geometry and format, and the per-channel mean of an RGB
//! buffer that stands for a whole frame.

use vstd::prelude::*;
use crate::color::Color;
use crate::error::CoreError;

verus! {

/// Width of a captured frame, in pixels.
pub const FRAME_WIDTH: u32 = 1280;

/// Height of a captured frame, in pixels.
pub const FRAME_HEIGHT: u32 = 720;

/// Index of the video node the camera is opened on.
pub const VIDEO_NODE: usize = 0;

/// Number of capture buffers mapped for streaming.
pub const CAPTURE_BUFFERS: u32 = 4;

/// Value written to the exposure-mode control to take exposure off automatic.
pub const EXPOSURE_MANUAL: i64 = 3;

/// Largest RGB buffer, in bytes, that a geometry may describe: every size
/// derived from a frame then fits a signed 32-bit offset.
pub const MAX_RGB_BYTES: usize = 0x7fff_ffff;

/// The YUV to RGB matrix used for conversion. Both variants read the frame
/// as full-range.
#[derive(Clone, Copy, Debug, PartialEq, Eq, Structural)]
pub enum ColorMatrix {
    Bt709Full,
    FccFull,
}

/// A pixel format as a device reports it.
#[derive(Clone, Copy, Debug, PartialEq, Eq)]
pub struct FrameFormat {
    pub width: u32,
    pub height: u32,
    pub fourcc: [u8; 4],
}

/// The four bytes `YUYV`, the tag of packed YUV 4:2:2.
pub open spec fn yuyv_fourcc() -> Seq<u8> {
    seq![0x59u8, 0x55u8, 0x59u8, 0x56u8]
}

/// Width and height of the frames a pipeline works on.
#[derive(Clone, Copy, Debug, PartialEq, Eq, Structural)]
pub struct FrameGeometry {
    pub width: u32,
    pub height: u32,
}

impl FrameGeometry {
    /// Number of pixels in a frame.
    pub open spec fn pixels(self) -> int {
        self.width * self.height
    }

    /// Bytes in one row of a packed YUV 4:2:2 frame: two per pixel.
    pub open spec fn yuyv_stride(self) -> int {
        self.width * 2
    }

    /// Bytes in a packed YUV 4:2:2 frame.
    pub open spec fn yuyv_bytes(self) -> int {
        self.pixels() * 2
    }

    /// Bytes in one row of an RGB frame: three per pixel.
    pub open spec fn rgb_stride(self) -> int {
        self.width * 3
    }

    /// Bytes in an RGB frame.
    pub open spec fn rgb_bytes(self) -> int {
        self.pixels() * 3
    }

    /// A geometry is usable when it has pixels, pairs them up evenly for the
    /// shared chroma samples, and stays within `MAX_RGB_BYTES`.
    pub open spec fn wf(self) -> bool {
        &&& self.width > 0
        &&& self.height > 0
        &&& self.width % 2 == 0
        &&& self.rgb_bytes() <= MAX_RGB_BYTES
    }

    /// The 1280 by 720 geometry the camera is run at.
    pub fn hd() -> (g: FrameGeometry)
        ensures
            g.width == FRAME_WIDTH,
            g.height == FRAME_HEIGHT,
            g.wf(),
            g.yuyv_stride() == 2560,
            g.yuyv_bytes() == 1_843_200,
            g.rgb_stride() == 3840,
            g.rgb_bytes() == 2_764_800,
    {
        FrameGeometry { width: FRAME_WIDTH, height: FRAME_HEIGHT }
    }

    /// Whether the geometry is usable.
    pub fn is_valid(&self) -> (ok: bool)
        ensures
            ok == self.wf(),
    {
        if self.width == 0 || self.height == 0 || self.width % 2 != 0 {
            return false;
        }
        let w: u64 = self.width as u64;
        let h: u64 = self.height as u64;
        assert(w * h <= 0xffff_ffff * 0xffff_ffff) by (nonlinear_arith)
            requires
                w <= 0xffff_ffff,
                h <= 0xffff_ffff,
        ;
        w * h <= MAX_RGB_BYTES as u64 / 3
    }

    /// Pixels in a frame, as a count.
    pub(crate) fn pixel_count(&self) -> (n: usize)
        requires
            self.wf(),
        ensures
            n == self.pixels(),
    {
        let w: u64 = self.width as u64;
        let h: u64 = self.height as u64;
        assert(w * h * 3 <= MAX_RGB_BYTES);
        (w * h) as usize
    }

    /// The format to ask the device for.
    pub fn requested_format(&self) -> (f: FrameFormat)
        ensures
            f.width == self.width,
            f.height == self.height,
            f.fourcc@ == yuyv_fourcc(),
    {
        let f = FrameFormat {
            width: self.width,
            height: self.height,
            fourcc: [0x59, 0x55, 0x59, 0x56],
        };
        assert(f.fourcc@ =~= yuyv_fourcc());
        f
    }

    /// Accepts the format a device settled on only if it is packed YUV 4:2:2
    /// at exactly this geometry.
    pub fn accepts(&self, negotiated: &FrameFormat) -> (res: Result<(), CoreError>)
        ensures
            res is Ok <==> negotiated.width == self.width && negotiated.height == self.height
                && negotiated.fourcc@ == yuyv_fourcc(),
            res is Err ==> res == Err::<(), CoreError>(CoreError::FormatUnsupported),
    {
        let tag = &negotiated.fourcc;
        let tagged: bool = tag[0] == 0x59 && tag[1] == 0x55 && tag[2] == 0x59 && tag[3] == 0x56;
        assert(tagged <==> negotiated.fourcc@ =~= yuyv_fourcc());
        if negotiated.width == self.width && negotiated.height == self.height && tagged {
            Ok(())
        } else {
            Err(CoreError::FormatUnsupported)
        }
    }
}

/// Sum of one channel over the first `pixels` pixels of an RGB buffer: the
/// bytes at offsets `channel`, `channel + 3`, `channel + 6`, and so on.
pub open spec fn channel_sum(rgb: Seq<u8>, channel: int, pixels: nat) -> int
    decreases pixels,
{
    if pixels == 0 {
        0
    } else {
        channel_sum(rgb, channel, (pixels - 1) as nat) + rgb[3 * (pixels - 1) + channel]
    }
}

/// Mean of one channel over all pixels of an RGB buffer, rounded down. The
/// divisor is the number of pixels, a third of the number of bytes.
pub open spec fn channel_mean(rgb: Seq<u8>, channel: int) -> int {
    channel_sum(rgb, channel, rgb.len() / 3) / ((rgb.len() / 3) as int)
}

/// An RGB buffer that `average_rgb` can take a mean of: at least one pixel,
/// and no partial pixel.
pub open spec fn averageable(rgb: Seq<u8>) -> bool {
    rgb.len() > 0 && rgb.len() % 3 == 0
}

/// A channel sum never exceeds 255 per pixel.
pub proof fn channel_sum_bounded(rgb: Seq<u8>, channel: int, pixels: nat)
    requires
        0 <= channel < 3,
        3 * pixels <= rgb.len(),
    ensures
        0 <= channel_sum(rgb, channel, pixels) <= 255 * pixels,
    decreases pixels,
{
    if pixels > 0 {
        channel_sum_bounded(rgb, channel, (pixels - 1) as nat);
    }
}

/// The mean of a channel is a byte.
pub proof fn channel_mean_bounded(rgb: Seq<u8>, channel: int)
    requires
        0 <= channel < 3,
        averageable(rgb),
    ensures
        0 <= channel_mean(rgb, channel) <= 255,
{
    let n = (rgb.len() / 3) as nat;
    let s = channel_sum(rgb, channel, n);
    channel_sum_bounded(rgb, channel, n);
    assert(0 <= s / (n as int) <= 255) by (nonlinear_arith)
        requires
            0 <= s <= 255 * n,
            n > 0,
    ;
}

/// Per-channel mean of an RGB buffer.
///
/// The buffer holds whole pixels of three bytes, red first. Each channel is
/// summed over all pixels and divided by the number of pixels.
pub fn average_rgb(rgb: &[u8]) -> (res: Result<Color, CoreError>)
    ensures
        res is Ok <==> averageable(rgb@),
        res is Err ==> res == Err::<Color, CoreError>(CoreError::ConfigInvalid),
        res matches Ok(c) ==> c.r == channel_mean(rgb@, 0) && c.g == channel_mean(rgb@, 1) && c.b
            == channel_mean(rgb@, 2),
        forall|k: Color|
            averageable(rgb@) && #[trigger] is_constant(rgb@, k) ==> res == Ok::<Color, CoreError>(
                k,
            ),
{
    let len: usize = rgb.len();
    if len == 0 || len % 3 != 0 {
        return Err(CoreError::ConfigInvalid);
    }
    let pixels: usize = len / 3;
    let mut r: u128 = 0;
    let mut g: u128 = 0;
    let mut b: u128 = 0;
    let mut p: usize = 0;
    while p < pixels
        invariant
            p <= pixels,
            len == rgb@.len(),
            pixels * 3 == len,
            r == channel_sum(rgb@, 0, p as nat),
            g == channel_sum(rgb@, 1, p as nat),
            b == channel_sum(rgb@, 2, p as nat),
            r <= 255 * p,
            g <= 255 * p,
            b <= 255 * p,
        decreases pixels - p,
    {
        let at: usize = p * 3;
        r += rgb[at] as u128;
        g += rgb[at + 1] as u128;
        b += rgb[at + 2] as u128;
        p += 1;
    }
    let n: u128 = pixels as u128;
    proof {
        channel_mean_bounded(rgb@, 0);
        channel_mean_bounded(rgb@, 1);
        channel_mean_bounded(rgb@, 2);
        assert forall|k: Color| #[trigger] is_constant(rgb@, k) implies k.r == channel_mean(rgb@, 0)
            && k.g == channel_mean(rgb@, 1) && k.b == channel_mean(rgb@, 2) by {
            average_of_constant(rgb@, k);
        }
    }
    Ok(Color { r: (r / n) as u8, g: (g / n) as u8, b: (b / n) as u8 })
}

/// A buffer in which every pixel has the colour `c`.
pub open spec fn is_constant(rgb: Seq<u8>, c: Color) -> bool {
    forall|p: int|
        0 <= p < rgb.len() / 3 ==> #[trigger] rgb[3 * p] == c.r && rgb[3 * p + 1] == c.g && rgb[3
            * p + 2] == c.b
}

/// Over a buffer of one colour, each channel sums to that colour's
/// intensity times the number of pixels.
pub proof fn channel_sum_of_constant(rgb: Seq<u8>, c: Color, pixels: nat)
    requires
        is_constant(rgb, c),
        pixels <= rgb.len() / 3,
    ensures
        channel_sum(rgb, 0, pixels) == pixels * c.r,
        channel_sum(rgb, 1, pixels) == pixels * c.g,
        channel_sum(rgb, 2, pixels) == pixels * c.b,
    decreases pixels,
{
    if pixels > 0 {
        let q = (pixels - 1) as nat;
        channel_sum_of_constant(rgb, c, q);
        assert(rgb[3 * (q as int)] == c.r && rgb[3 * (q as int) + 1] == c.g && rgb[3 * (q as int)
            + 2] == c.b);
        assert(pixels * c.r == q * c.r + c.r) by (nonlinear_arith)
            requires
                pixels == q + 1,
        ;
        assert(pixels * c.g == q * c.g + c.g) by (nonlinear_arith)
            requires
                pixels == q + 1,
        ;
        assert(pixels * c.b == q * c.b + c.b) by (nonlinear_arith)
            requires
                pixels == q + 1,
        ;
    }
}

/// The mean of a buffer of one colour is that colour, exactly.
pub proof fn average_of_constant(rgb: Seq<u8>, c: Color)
    requires
        averageable(rgb),
        is_constant(rgb, c),
    ensures
        channel_mean(rgb, 0) == c.r,
        channel_mean(rgb, 1) == c.g,
        channel_mean(rgb, 2) == c.b,
{
    let n = (rgb.len() / 3) as nat;
    channel_sum_of_constant(rgb, c, n);
    let (cr, cg, cb) = (c.r as int, c.g as int, c.b as int);
    assert((n * cr) / (n as int) == cr) by (nonlinear_arith)
        requires
            n > 0,
    ;
    assert((n * cg) / (n as int) == cg) by (nonlinear_arith)
        requires
            n > 0,
    ;
    assert((n * cb) / (n as int) == cb) by (nonlinear_arith)
        requires
            n > 0,
    ;
}

} // verus!
