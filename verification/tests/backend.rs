use base64::Engine;
use screen_capture::{
    capture_target, data_uri_from_webp, image_to_data_uri, modifier_for_platform, monitor_count,
    paste_chord, screenshot_encode, KeyAction, ModifierKey, RawImage,
};

fn two_by_two_frame() -> RawImage {
    // red, green, blue, white - RGBA, row-major
    let pixels = vec![
        255, 0, 0, 255, 0, 255, 0, 255, //
        0, 0, 255, 255, 255, 255, 255, 255,
    ];
    RawImage {
        width: 2,
        height: 2,
        pixels,
    }
}

#[test]
fn monitor_count_falls_back_on_failed_query() {
    assert_eq!(monitor_count(None), 1);
}

#[test]
fn monitor_count_falls_back_on_empty_enumeration() {
    assert_eq!(monitor_count(Some(0)), 1);
}

#[test]
fn monitor_count_reports_the_enumeration() {
    assert_eq!(monitor_count(Some(1)), 1);
    assert_eq!(monitor_count(Some(2)), 2);
    assert_eq!(monitor_count(Some(17)), 17);
}

#[test]
fn monitor_count_is_never_zero() {
    for enumeration in [None, Some(0), Some(1), Some(5)] {
        assert!(monitor_count(enumeration) >= 1);
    }
}

#[test]
fn capture_target_takes_indexes_inside_the_enumeration() {
    assert_eq!(capture_target(Some(2), 0), Some(0));
    assert_eq!(capture_target(Some(2), 1), Some(1));
}

#[test]
fn capture_target_refuses_indexes_out_of_range() {
    assert_eq!(capture_target(Some(2), 2), None);
    assert_eq!(capture_target(Some(2), usize::MAX), None);
    assert_eq!(capture_target(None, 0), None);
}

#[test]
fn zero_displays_still_count_one_but_capture_nothing() {
    // enumeration answered with an empty list
    assert_eq!(monitor_count(Some(0)), 1);
    assert_eq!(capture_target(Some(0), 0), None);
    assert_eq!(screenshot_encode(None), "");
}

#[test]
fn two_displays_one_capture_fails() {
    let enumeration = Some(2);
    assert_eq!(capture_target(enumeration, 0), Some(0));
    assert_eq!(capture_target(enumeration, 1), Some(1));
    // the capture of the first monitor succeeds
    let good = screenshot_encode(Some(two_by_two_frame()));
    assert!(good.starts_with("data:image/webp;base64,"));
    assert!(good.len() > "data:image/webp;base64,".len());
    // the capture of the second fails inside the driver
    let bad = screenshot_encode(None);
    assert_eq!(bad, "");
}

#[test]
fn screenshot_payload_decodes_to_webp() {
    let uri = screenshot_encode(Some(two_by_two_frame()));
    let prefix = "data:image/webp;base64,";
    assert!(uri.starts_with(prefix));
    let payload = &uri[prefix.len()..];
    let bytes = base64::engine::general_purpose::STANDARD
        .decode(payload)
        .expect("payload must be valid base64");
    assert_eq!(&bytes[0..4], b"RIFF");
    assert_eq!(&bytes[8..12], b"WEBP");
    let decoded = image::load_from_memory_with_format(&bytes, image::ImageFormat::WebP)
        .expect("payload must decode as a WebP image");
    assert_eq!(decoded.width(), 2);
    assert_eq!(decoded.height(), 2);
    assert_eq!(decoded.to_rgba8().into_raw(), two_by_two_frame().pixels);
}

#[test]
fn data_uri_exact_values() {
    assert_eq!(data_uri_from_webp(&vec![]), "data:image/webp;base64,");
    assert_eq!(
        data_uri_from_webp(&vec![1, 2, 3]),
        "data:image/webp;base64,AQID"
    );
    assert_eq!(data_uri_from_webp(&vec![0xFF]), "data:image/webp;base64,/w==");
    assert_eq!(
        data_uri_from_webp(&vec![0xFF, 0xEE]),
        "data:image/webp;base64,/+4="
    );
}

#[test]
fn unencodable_frames_give_the_empty_sentinel() {
    let zero_width = RawImage {
        width: 0,
        height: 1,
        pixels: vec![],
    };
    assert_eq!(image_to_data_uri(&zero_width), "");
    let short_buffer = RawImage {
        width: 1,
        height: 1,
        pixels: vec![0, 0, 0],
    };
    assert_eq!(image_to_data_uri(&short_buffer), "");
}

#[test]
fn image_to_data_uri_matches_a_direct_encoding() {
    let frame = two_by_two_frame();
    let mut webp = Vec::new();
    let encoder = image::codecs::webp::WebPEncoder::new_lossless(&mut webp);
    encoder
        .encode(&frame.pixels, 2, 2, image::ExtendedColorType::Rgba8)
        .expect("the encoder takes a 2x2 frame");
    let expected = format!(
        "data:image/webp;base64,{}",
        base64::engine::general_purpose::STANDARD.encode(&webp)
    );
    assert_eq!(image_to_data_uri(&frame), expected);
}

#[test]
fn paste_modifier_by_platform() {
    assert_eq!(
        modifier_for_platform(&String::from("macos")),
        ModifierKey::Meta
    );
    assert_eq!(
        modifier_for_platform(&String::from("linux")),
        ModifierKey::Control
    );
    assert_eq!(
        modifier_for_platform(&String::from("windows")),
        ModifierKey::Control
    );
}

#[test]
fn paste_chord_is_press_click_release() {
    assert_eq!(
        paste_chord(ModifierKey::Control),
        vec![
            KeyAction::Press(ModifierKey::Control),
            KeyAction::ClickChar('v'),
            KeyAction::Release(ModifierKey::Control),
        ]
    );
    assert_eq!(
        paste_chord(ModifierKey::Meta),
        vec![
            KeyAction::Press(ModifierKey::Meta),
            KeyAction::ClickChar('v'),
            KeyAction::Release(ModifierKey::Meta),
        ]
    );
}
