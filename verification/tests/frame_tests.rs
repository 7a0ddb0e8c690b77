use raspbot::color::Color;
use raspbot::convert::{average_frame, convert_frame, frame_closest_color};
use raspbot::error::CoreError;
use raspbot::frame::{
    average_rgb, ColorMatrix, FrameFormat, FrameGeometry, CAPTURE_BUFFERS, EXPOSURE_MANUAL,
    FRAME_HEIGHT, FRAME_WIDTH, VIDEO_NODE,
};
use raspbot::palette::{ClosestColor, Palette};

fn yuyv_frame(geometry: &FrameGeometry, y: u8, u: u8, v: u8) -> Vec<u8> {
    let pairs = (geometry.width as usize * geometry.height as usize) / 2;
    let mut frame = Vec::with_capacity(pairs * 4);
    for _ in 0..pairs {
        frame.push(y);
        frame.push(u);
        frame.push(y);
        frame.push(v);
    }
    frame
}

#[test]
fn average_of_a_uniform_buffer_is_its_color() {
    for (r, g, b) in [(0u8, 0u8, 0u8), (255, 255, 255), (255, 0, 0), (1, 2, 3), (32, 32, 32)] {
        let mut rgb = Vec::new();
        for _ in 0..1000 {
            rgb.push(r);
            rgb.push(g);
            rgb.push(b);
        }
        assert_eq!(average_rgb(&rgb), Ok(Color::new(r, g, b)));
    }
}

#[test]
fn average_divides_by_the_number_of_pixels() {
    // Two pixels: (10, 20, 30) and (20, 40, 61).
    let rgb = [10u8, 20, 30, 20, 40, 61];
    assert_eq!(average_rgb(&rgb), Ok(Color::new(15, 30, 45)));
    // Dividing by the number of bytes would give a third of this.
    let one = [90u8, 150, 240];
    assert_eq!(average_rgb(&one), Ok(Color::new(90, 150, 240)));
}

#[test]
fn average_keeps_channels_apart() {
    let rgb = [255u8, 0, 0, 255, 0, 0, 255, 0, 3, 255, 0, 1];
    assert_eq!(average_rgb(&rgb), Ok(Color::new(255, 0, 1)));
}

#[test]
fn average_of_a_full_frame_does_not_overflow() {
    let rgb = vec![255u8; 1280 * 720 * 3];
    assert_eq!(average_rgb(&rgb), Ok(Color::new(255, 255, 255)));
}

#[test]
fn average_refuses_empty_and_ragged_buffers() {
    assert_eq!(average_rgb(&[]), Err(CoreError::ConfigInvalid));
    assert_eq!(average_rgb(&[1u8]), Err(CoreError::ConfigInvalid));
    assert_eq!(average_rgb(&[1u8, 2]), Err(CoreError::ConfigInvalid));
    assert_eq!(average_rgb(&[1u8, 2, 3, 4]), Err(CoreError::ConfigInvalid));
    assert_eq!(average_rgb(&[1u8, 2, 3]), Ok(Color::new(1, 2, 3)));
}

#[test]
fn hd_geometry_has_its_sizes() {
    let g = FrameGeometry::hd();
    assert_eq!((g.width, g.height), (1280, 720));
    assert_eq!((FRAME_WIDTH, FRAME_HEIGHT), (1280, 720));
    assert!(g.is_valid());
    assert_eq!(CAPTURE_BUFFERS, 4);
    assert_eq!(VIDEO_NODE, 0);
    assert_eq!(EXPOSURE_MANUAL, 3);
}

#[test]
fn geometry_validity() {
    assert!(FrameGeometry { width: 2, height: 1 }.is_valid());
    assert!(!FrameGeometry { width: 0, height: 720 }.is_valid());
    assert!(!FrameGeometry { width: 1280, height: 0 }.is_valid());
    assert!(!FrameGeometry { width: 3, height: 2 }.is_valid());
    // 3 * 26754 * 26754 = 2_147_329_548 fits; one more row pair does not.
    assert!(FrameGeometry { width: 26_754, height: 26_754 }.is_valid());
    assert!(!FrameGeometry { width: 26_756, height: 26_756 }.is_valid());
    assert!(!FrameGeometry { width: 4_294_967_294, height: 4_294_967_295 }.is_valid());
}

#[test]
fn negotiated_format_must_match() {
    let g = FrameGeometry::hd();
    let wanted = g.requested_format();
    assert_eq!(wanted, FrameFormat { width: 1280, height: 720, fourcc: *b"YUYV" });
    assert_eq!(g.accepts(&wanted), Ok(()));
    assert_eq!(
        g.accepts(&FrameFormat { width: 640, height: 480, fourcc: *b"YUYV" }),
        Err(CoreError::FormatUnsupported)
    );
    assert_eq!(
        g.accepts(&FrameFormat { width: 1280, height: 721, fourcc: *b"YUYV" }),
        Err(CoreError::FormatUnsupported)
    );
    assert_eq!(
        g.accepts(&FrameFormat { width: 1280, height: 720, fourcc: *b"MJPG" }),
        Err(CoreError::FormatUnsupported)
    );
    assert_eq!(
        g.accepts(&FrameFormat { width: 1280, height: 720, fourcc: *b"YUYW" }),
        Err(CoreError::FormatUnsupported)
    );
}

#[test]
fn grey_frame_converts_to_grey_pixels() {
    let g = FrameGeometry { width: 4, height: 2 };
    let frame = yuyv_frame(&g, 100, 128, 128);
    assert_eq!(frame.len(), 16);
    for matrix in [ColorMatrix::Bt709Full, ColorMatrix::FccFull] {
        let rgb = convert_frame(&frame, &g, matrix).unwrap();
        assert_eq!(rgb, vec![100u8; 24]);
    }
}

#[test]
fn converted_frame_differs_from_its_source() {
    let g = FrameGeometry { width: 2, height: 1 };
    let frame = vec![54u8, 99, 54, 255];
    let rgb = convert_frame(&frame, &g, ColorMatrix::Bt709Full).unwrap();
    assert_eq!(rgb.len(), 6);
    assert_ne!(&rgb[..4], &frame[..]);
    // Strongly red, not the zero-filled buffer the conversion started from.
    assert!(rgb[0] >= 250 && rgb[1] <= 5 && rgb[2] <= 5);
    assert!(rgb[3] >= 250 && rgb[4] <= 5 && rgb[5] <= 5);
}

#[test]
fn matrices_differ_on_saturated_chroma() {
    let g = FrameGeometry { width: 2, height: 1 };
    let frame = vec![120u8, 90, 120, 200];
    let bt709 = convert_frame(&frame, &g, ColorMatrix::Bt709Full).unwrap();
    let fcc = convert_frame(&frame, &g, ColorMatrix::FccFull).unwrap();
    assert_ne!(bt709, fcc);
}

#[test]
fn frame_of_the_wrong_size_is_refused_by_the_converter() {
    let g = FrameGeometry { width: 4, height: 2 };
    assert_eq!(convert_frame(&[0u8; 15], &g, ColorMatrix::Bt709Full), Err(CoreError::DecodeFailed));
    assert_eq!(convert_frame(&[0u8; 17], &g, ColorMatrix::Bt709Full), Err(CoreError::DecodeFailed));
    assert_eq!(convert_frame(&[], &g, ColorMatrix::FccFull), Err(CoreError::DecodeFailed));
    assert_eq!(average_frame(&[0u8; 24], &g, ColorMatrix::Bt709Full), Err(CoreError::DecodeFailed));
    assert_eq!(average_frame(&[0u8; 8], &g, ColorMatrix::Bt709Full), Err(CoreError::DecodeFailed));
    assert!(convert_frame(&[0u8; 16], &g, ColorMatrix::Bt709Full).is_ok());
    let hd = FrameGeometry::hd();
    assert_eq!(
        average_frame(&vec![0u8; 1_843_199], &hd, ColorMatrix::Bt709Full),
        Err(CoreError::DecodeFailed)
    );
}

#[test]
fn unusable_geometry_is_a_configuration_error() {
    let odd = FrameGeometry { width: 3, height: 2 };
    let refused = Err(CoreError::ConfigInvalid);
    assert_eq!(convert_frame(&[0u8; 12], &odd, ColorMatrix::Bt709Full), refused);
    assert_eq!(convert_frame(&[0u8; 16], &odd, ColorMatrix::Bt709Full), refused);
    let none = FrameGeometry { width: 0, height: 0 };
    assert_eq!(average_frame(&[], &none, ColorMatrix::Bt709Full), Err(CoreError::ConfigInvalid));
    let huge = FrameGeometry { width: 4_294_967_294, height: 4_294_967_295 };
    assert_eq!(
        average_frame(&[0u8; 4], &huge, ColorMatrix::Bt709Full),
        Err(CoreError::ConfigInvalid)
    );
}

#[test]
fn frame_is_labelled_under_the_given_palette() {
    let g = FrameGeometry { width: 2, height: 2 };
    let white = vec![255u8, 128, 255, 128, 255, 128, 255, 128];
    assert_eq!(
        frame_closest_color(&white, &g, ColorMatrix::Bt709Full, &Palette::signal()),
        Ok((Color::new(255, 255, 255), ClosestColor::White))
    );
    let dark = vec![10u8, 128, 10, 128, 10, 128, 10, 128];
    assert_eq!(
        frame_closest_color(&dark, &g, ColorMatrix::Bt709Full, &Palette::traffic()),
        Ok((Color::new(10, 10, 10), ClosestColor::NoColor))
    );
    assert_eq!(
        frame_closest_color(&dark[..6], &g, ColorMatrix::Bt709Full, &Palette::traffic()),
        Err(CoreError::DecodeFailed)
    );
}

#[test]
fn full_grey_frame_averages_to_grey() {
    let g = FrameGeometry::hd();
    let frame = yuyv_frame(&g, 77, 128, 128);
    assert_eq!(frame.len(), 1_843_200);
    assert_eq!(average_frame(&frame, &g, ColorMatrix::Bt709Full), Ok(Color::new(77, 77, 77)));
    let rgb = convert_frame(&frame, &g, ColorMatrix::Bt709Full).unwrap();
    assert_eq!(rgb.len(), 2_764_800);
}

#[test]
fn red_camera_frame_is_seen_as_red() {
    let g = FrameGeometry::hd();
    let frame = yuyv_frame(&g, 54, 99, 255);
    let color = average_frame(&frame, &g, ColorMatrix::Bt709Full).unwrap();
    assert!(color.r >= 250 && color.g <= 5 && color.b <= 5);
    assert_eq!(ClosestColor::closest(&color), ClosestColor::Red);
}
