use capture_ai::inference::build_request;
use capture_ai::inference::default_config;
use capture_ai::pixel::convert_frame;
use capture_ai::pixel::Image;
use capture_ai::pixel::RawFrame;
use capture_ai::time::now_local;
use capture_ai::time::snapshot_rel_path;
use capture_ai::time::timestamp_name;
use capture_ai::time::LocalTime;
use capture_ai::errors::StageError;

fn frame_2x2() -> RawFrame {
    // pixel k holds bytes [blue, green, red, alpha] = [10+k, 20+k, 30+k, 40+k]
    let mut data = Vec::new();
    for k in 0..4u8 {
        data.push(10 + k);
        data.push(20 + k);
        data.push(30 + k);
        data.push(40 + k);
    }
    RawFrame { width: 2, height: 2, data }
}

#[test]
fn convert_known_pixels() {
    let frame = frame_2x2();
    let img = convert_frame(&frame).unwrap();
    assert_eq!(img.width, 2);
    assert_eq!(img.height, 2);
    // each output pixel is (red, green, blue) = (raw[i+2], raw[i+1], raw[i])
    let expected = vec![30, 20, 10, 31, 21, 11, 32, 22, 12, 33, 23, 13];
    assert_eq!(img.data, expected);
}

#[test]
fn pixel_at_reads_channels() {
    let frame = frame_2x2();
    let img = convert_frame(&frame).unwrap();
    assert_eq!(img.pixel_at(0, 0), (30, 20, 10));
    assert_eq!(img.pixel_at(1, 1), (33, 23, 13));
}

#[test]
fn convert_rejects_short_buffer() {
    let mut frame = frame_2x2();
    frame.data.truncate(14);
    let r = convert_frame(&frame);
    assert!(matches!(r, Err(StageError::BufferTooSmall)));
}

#[test]
fn convert_allows_missing_final_alpha() {
    // the alpha byte of the last pixel is never read
    let mut frame = frame_2x2();
    frame.data.truncate(15);
    let img = convert_frame(&frame).unwrap();
    assert_eq!(img.data[9..12], [33, 23, 13]);
}

#[test]
fn convert_empty_frame() {
    let frame = RawFrame { width: 0, height: 5, data: Vec::new() };
    let img = convert_frame(&frame).unwrap();
    assert_eq!(img.width, 0);
    assert_eq!(img.height, 5);
    assert!(img.data.is_empty());
}

#[test]
fn timestamp_format_exact() {
    let t = LocalTime { year: 2024, month: 3, day: 7, hour: 9, minute: 5, second: 30 };
    assert_eq!(timestamp_name(&t), "2024-03-07_09-05-30");
    assert_eq!(snapshot_rel_path(&t), "screenshot/2024-03-07_09-05-30.png");
}

#[test]
fn timestamp_same_second_same_path() {
    let t = LocalTime { year: 2025, month: 12, day: 31, hour: 23, minute: 59, second: 59 };
    let u = t;
    assert_eq!(snapshot_rel_path(&t), snapshot_rel_path(&u));
}

#[test]
fn timestamp_distinct_seconds_distinct_paths() {
    let t = LocalTime { year: 2025, month: 1, day: 2, hour: 3, minute: 4, second: 5 };
    let mut u = t;
    u.second = 6;
    assert_ne!(snapshot_rel_path(&t), snapshot_rel_path(&u));
}

#[test]
fn png_round_trip() {
    let mut data = Vec::new();
    for j in 0..18u8 {
        data.push(j * 13 % 251);
    }
    let img = Image { width: 3, height: 2, data: data.clone() };
    let png = img.to_png().unwrap();
    let back = Image::from_png(&png).unwrap();
    assert_eq!(back.width, 3);
    assert_eq!(back.height, 2);
    assert_eq!(back.data, data);
}

#[test]
fn png_rejects_zero_size() {
    let img = Image { width: 0, height: 5, data: Vec::new() };
    assert!(img.to_png().is_none());
}

#[test]
fn png_rejects_garbage_bytes() {
    let bytes = vec![1, 2, 3, 4, 5];
    assert!(Image::from_png(&bytes).is_none());
}

#[test]
fn echo_backend_returns_recognized_text() {
    let cfg = default_config();
    let recognized = String::from("WHAT IS 2+2");
    let request = build_request(&cfg, recognized.clone());
    // a stubbed backend that echoes its prompt
    let response = request.prompt.clone();
    assert_eq!(response, recognized);
    assert!(response.contains("WHAT IS 2+2"));
}

#[test]
fn build_request_takes_config_values() {
    let cfg = default_config();
    let request = build_request(&cfg, String::from("hello"));
    assert_eq!(request.model, "mistral:latest");
    assert_eq!(request.system, cfg.system_prompt);
    assert_eq!(request.prompt, "hello");
}

#[test]
fn default_config_values() {
    let cfg = default_config();
    assert_eq!(cfg.model_id, "mistral:latest");
    assert_eq!(cfg.ocr_language, "eng");
    assert!(cfg.system_prompt.starts_with("You are a personal assistant"));
}

#[test]
fn now_local_within_ranges() {
    let t = now_local();
    assert!((0..=9999).contains(&t.year));
    assert!((1..=12).contains(&t.month));
    assert!((1..=31).contains(&t.day));
    assert!(t.hour <= 23);
    assert!(t.minute <= 59);
    assert!(t.second <= 59);
    assert_eq!(timestamp_name(&t).len(), 19);
}
