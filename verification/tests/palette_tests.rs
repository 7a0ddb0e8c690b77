use raspbot::color::Color;
use raspbot::error::CoreError;
use raspbot::frame::average_rgb;
use raspbot::palette::{ClosestColor, Palette, PaletteEntry};

fn uniform_frame(r: u8, g: u8, b: u8) -> Vec<u8> {
    let mut rgb = Vec::with_capacity(1280 * 720 * 3);
    for _ in 0..(1280 * 720) {
        rgb.push(r);
        rgb.push(g);
        rgb.push(b);
    }
    rgb
}

#[test]
fn red_frame_is_classified_red() {
    let rgb = uniform_frame(255, 0, 0);
    let color = average_rgb(&rgb).unwrap();
    assert_eq!(color, Color::new(255, 0, 0));
    assert_eq!(ClosestColor::closest(&color), ClosestColor::Red);
    assert_eq!(Palette::traffic().closest(&color), ClosestColor::Red);
}

#[test]
fn green_frame_is_classified_green() {
    let rgb = uniform_frame(0, 255, 0);
    let color = average_rgb(&rgb).unwrap();
    assert_eq!(color, Color::new(0, 255, 0));
    assert_eq!(ClosestColor::closest(&color), ClosestColor::Green);
}

#[test]
fn dark_grey_frame_is_classified_as_nothing() {
    let rgb = uniform_frame(32, 32, 32);
    let color = average_rgb(&rgb).unwrap();
    assert_eq!(color, Color::new(32, 32, 32));
    assert_eq!(color.abs_diff(&Color::new(16, 16, 16)), 768);
    assert!(color.abs_diff(&Color::new(255, 0, 0)) >= 49_923);
    assert!(color.abs_diff(&Color::new(0, 255, 0)) >= 49_923);
    assert!(color.abs_diff(&Color::new(0, 0, 255)) >= 49_923);
    assert_eq!(ClosestColor::closest(&color), ClosestColor::NoColor);
    assert_eq!(Palette::traffic().classify(&color), 3);
}

#[test]
fn peach_frame_against_the_signal_palette() {
    let rgb = uniform_frame(255, 192, 128);
    let color = average_rgb(&rgb).unwrap();
    assert_eq!(color, Color::new(255, 192, 128));
    let orange = color.abs_diff(&Color::new(255, 128, 0));
    let white = color.abs_diff(&Color::new(255, 255, 255));
    let blue = color.abs_diff(&Color::new(0, 0, 255));
    assert_eq!(orange, 64 * 64 + 128 * 128);
    assert_eq!(white, 63 * 63 + 127 * 127);
    assert_eq!(blue, 255 * 255 + 192 * 192 + 127 * 127);
    // White is nearer than orange by squared-Euclidean distance.
    assert!(white < orange && orange < blue);
    assert_eq!(Palette::signal().closest(&color), ClosestColor::White);
}

#[test]
fn orange_frame_against_the_signal_palette() {
    let rgb = uniform_frame(255, 150, 40);
    let color = average_rgb(&rgb).unwrap();
    assert_eq!(Palette::signal().classify(&color), 1);
    assert_eq!(Palette::signal().closest(&color), ClosestColor::Orange);
}

#[test]
fn classify_returns_the_minimum_over_all_entries() {
    let palette = Palette::traffic();
    let samples = [
        Color::new(0, 0, 0),
        Color::new(200, 30, 30),
        Color::new(10, 130, 20),
        Color::new(90, 90, 200),
        Color::new(128, 128, 128),
        Color::new(255, 255, 255),
    ];
    for c in samples.iter() {
        let idx = palette.classify(c);
        let best = c.abs_diff(&palette.entry(idx).unwrap().color);
        for j in 0..palette.len() {
            let d = c.abs_diff(&palette.entry(j).unwrap().color);
            assert!(best <= d);
            if j < idx {
                assert!(best < d);
            }
        }
    }
}

#[test]
fn ties_go_to_the_earliest_entry() {
    let entries = vec![
        PaletteEntry { label: ClosestColor::Blue, color: Color::new(0, 0, 10) },
        PaletteEntry { label: ClosestColor::Red, color: Color::new(10, 0, 0) },
        PaletteEntry { label: ClosestColor::Green, color: Color::new(0, 10, 0) },
    ];
    let palette = Palette::new(entries).unwrap();
    // Equally far from all three.
    assert_eq!(palette.classify(&Color::new(0, 0, 0)), 0);
    assert_eq!(palette.closest(&Color::new(0, 0, 0)), ClosestColor::Blue);
    // Equally far from the last two only.
    assert_eq!(palette.classify(&Color::new(10, 10, 0)), 1);
}

#[test]
fn reference_colors_classify_to_themselves() {
    for palette in [Palette::traffic(), Palette::signal()] {
        for i in 0..palette.len() {
            let entry = palette.entry(i).unwrap();
            assert_eq!(palette.classify(&entry.color), i);
            assert_eq!(palette.closest(&entry.color), entry.label);
        }
    }
}

#[test]
fn repeated_reference_color_classifies_to_its_first_entry() {
    let entries = vec![
        PaletteEntry { label: ClosestColor::Red, color: Color::new(9, 9, 9) },
        PaletteEntry { label: ClosestColor::White, color: Color::new(9, 9, 9) },
    ];
    let palette = Palette::new(entries).unwrap();
    assert_eq!(palette.classify(&Color::new(9, 9, 9)), 0);
    assert_eq!(palette.closest(&Color::new(9, 9, 9)), ClosestColor::Red);
}

#[test]
fn empty_palette_is_refused() {
    assert!(matches!(Palette::new(Vec::new()), Err(CoreError::ConfigInvalid)));
}

#[test]
fn palettes_hold_their_entries() {
    let traffic = Palette::traffic();
    assert_eq!(traffic.len(), 4);
    assert_eq!(
        traffic.entry(0),
        Some(PaletteEntry { label: ClosestColor::Red, color: Color::new(255, 0, 0) })
    );
    assert_eq!(
        traffic.entry(1),
        Some(PaletteEntry { label: ClosestColor::Green, color: Color::new(0, 255, 0) })
    );
    assert_eq!(
        traffic.entry(2),
        Some(PaletteEntry { label: ClosestColor::Blue, color: Color::new(0, 0, 255) })
    );
    assert_eq!(
        traffic.entry(3),
        Some(PaletteEntry { label: ClosestColor::NoColor, color: Color::new(16, 16, 16) })
    );
    assert_eq!(traffic.entry(4), None);
    let signal = Palette::signal();
    assert_eq!(signal.len(), 3);
    assert_eq!(
        signal.entry(0),
        Some(PaletteEntry { label: ClosestColor::Blue, color: Color::new(0, 0, 255) })
    );
    assert_eq!(
        signal.entry(1),
        Some(PaletteEntry { label: ClosestColor::Orange, color: Color::new(255, 128, 0) })
    );
    assert_eq!(
        signal.entry(2),
        Some(PaletteEntry { label: ClosestColor::White, color: Color::new(255, 255, 255) })
    );
}

#[test]
fn labels_have_their_names() {
    assert_eq!(ClosestColor::Red.name(), "Red");
    assert_eq!(ClosestColor::Green.name(), "Green");
    assert_eq!(ClosestColor::Blue.name(), "Blue");
    assert_eq!(ClosestColor::NoColor.name(), "None");
    assert_eq!(ClosestColor::Orange.name(), "Orange");
    assert_eq!(ClosestColor::White.name(), "White");
}
