use camera_server::frame::{analyze_frame, compare_frames, count_changed, process_frame, COMPARE_HEIGHT, COMPARE_WIDTH};
use camera_server::stream::{forwarded_client, stream_content_type, stream_part};
use camera_server::video::{
    build_vf_filter, count_frame_files, ffmpeg_args, frame_file_name, frames_dir, split_session, video_path,
};

fn jpeg(width: u32, height: u32, level: u8) -> Vec<u8> {
    let img = image::RgbImage::from_pixel(width, height, image::Rgb([level, level, level]));
    let mut buf = std::io::Cursor::new(Vec::new());
    image::DynamicImage::ImageRgb8(img).write_to(&mut buf, image::ImageFormat::Jpeg).unwrap();
    buf.into_inner()
}

fn strings(v: &[&str]) -> Vec<String> {
    v.iter().map(|s| s.to_string()).collect()
}

#[test]
fn vf_filter_for_each_rotation() {
    assert_eq!(build_vf_filter(0, false), None);
    assert_eq!(build_vf_filter(90, false), Some("transpose=1".to_string()));
    assert_eq!(build_vf_filter(180, false), Some("transpose=2,transpose=2".to_string()));
    assert_eq!(build_vf_filter(270, true), Some("transpose=2,hflip".to_string()));
    assert_eq!(build_vf_filter(45, true), Some("hflip".to_string()));
    assert_eq!(build_vf_filter(360, false), None);
}

#[test]
fn session_splits_at_first_underscore() {
    assert_eq!(split_session("05-03-2024_07-08-09"), ("05-03-2024".to_string(), "07-08-09".to_string()));
    assert_eq!(split_session("a_b_c"), ("a".to_string(), "b_c".to_string()));
    assert_eq!(split_session("legacy"), ("legacy".to_string(), "00-00-00".to_string()));
    assert_eq!(split_session("_x"), ("".to_string(), "x".to_string()));
}

#[test]
fn frame_files_are_zero_padded() {
    assert_eq!(frame_file_name(7), "frame_000007.jpg");
    assert_eq!(frame_file_name(0), "frame_000000.jpg");
    assert_eq!(frame_file_name(123456), "frame_123456.jpg");
    assert_eq!(frame_file_name(1234567), "frame_1234567.jpg");
}

#[test]
fn session_paths() {
    assert_eq!(frames_dir("Porch", "05-03-2024_07-08-09"), strings(&["Porch", "05-03-2024", ".raw", "07-08-09"]));
    assert_eq!(video_path("Porch", "05-03-2024_07-08-09"), strings(&["Porch", "05-03-2024", "07-08-09.mp4"]));
}

#[test]
fn only_frame_files_count() {
    let names = strings(&["frame_000001.jpg", "frame_000002.jpg", "notes.txt", "frame", "xframe_1.jpg", "frame_"]);
    assert_eq!(count_frame_files(&names), 3);
    assert_eq!(count_frame_files(&Vec::new()), 0);
}

#[test]
fn ffmpeg_command_line() {
    let args = ffmpeg_args("12.5", "/s/cam/d/.raw/t/frame_*.jpg", 90, true, "/s/cam/d/t.mp4");
    assert_eq!(
        args,
        strings(&[
            "-framerate", "12.5", "-pattern_type", "glob", "-i", "/s/cam/d/.raw/t/frame_*.jpg", "-vf",
            "transpose=1,hflip", "-c:v", "libx264", "-pix_fmt", "yuv420p", "-movflags", "+faststart", "-y",
            "/s/cam/d/t.mp4",
        ])
    );
    let plain = ffmpeg_args("3", "g", 0, false, "o.mp4");
    assert_eq!(plain.len(), 14);
    assert!(!plain.contains(&"-vf".to_string()));
}

#[test]
fn frames_reduce_to_compare_size() {
    let data = jpeg(64, 48, 100);
    let gray = process_frame(&data).unwrap();
    assert_eq!(gray.len(), (COMPARE_WIDTH * COMPARE_HEIGHT) as usize);
    assert_ne!(gray, data);
}

#[test]
fn undecodable_frames_give_nothing() {
    assert!(process_frame(b"not a jpeg").is_none());
    assert!(process_frame(&[]).is_none());
    assert!(analyze_frame(b"garbage", None, 40, 10).is_none());
}

#[test]
fn changed_pixels_count_above_threshold() {
    let prev = vec![10u8, 10, 10, 200, 0];
    let cur = vec![10u8, 51, 50, 100, 255];
    assert_eq!(count_changed(&prev, &cur, 40), 3);
    assert_eq!(count_changed(&prev, &cur, 100), 1);
    assert_eq!(count_changed(&prev, &cur[..3].to_vec(), 0), 2);
}

#[test]
fn identical_frames_show_no_change() {
    let g = vec![5u8, 200, 17, 255, 0];
    assert_eq!(count_changed(&g, &g, 0), 0);
}

#[test]
fn motion_needs_a_previous_frame_and_enough_change() {
    let first = compare_frames(None, vec![0u8; 8], 10, 0);
    assert!(!first.detected);
    assert_eq!(first.changed, 0);
    let moved = compare_frames(Some(vec![0u8; 8]), vec![100u8; 8], 10, 8);
    assert!(moved.detected);
    assert_eq!(moved.changed, 8);
    let small = compare_frames(Some(vec![0u8; 8]), vec![100u8, 0, 0, 0, 0, 0, 0, 0], 10, 2);
    assert!(!small.detected);
    assert_eq!(small.changed, 1);
}

#[test]
fn analyze_compares_decoded_frames() {
    let dark = process_frame(&jpeg(32, 24, 0)).unwrap();
    let bright = analyze_frame(&jpeg(32, 24, 250), Some(dark.clone()), 40, 100).unwrap();
    assert!(bright.detected);
    assert_eq!(bright.changed, (COMPARE_WIDTH * COMPARE_HEIGHT) as u32);
    let same = analyze_frame(&jpeg(32, 24, 0), Some(dark), 40, 1).unwrap();
    assert!(!same.detected);
}

#[test]
fn stream_parts_frame_the_jpeg() {
    let part = stream_part(&[1, 2, 3]);
    let mut expected = b"--frame\r\nContent-Type: image/jpeg\r\nContent-Length: 3\r\n\r\n".to_vec();
    expected.extend_from_slice(&[1, 2, 3]);
    expected.extend_from_slice(b"\r\n");
    assert_eq!(part, expected);
    assert_eq!(stream_content_type(), "multipart/x-mixed-replace; boundary=frame");
}

#[test]
fn forwarded_header_first_entry() {
    assert_eq!(forwarded_client(" 203.0.113.7 , 10.0.0.1"), "203.0.113.7");
    assert_eq!(forwarded_client("10.0.0.2"), "10.0.0.2");
    assert_eq!(forwarded_client(",x"), "");
}

#[test]
fn reduced_frames_are_one_grey_byte_per_pixel() {
    let img = image::RgbImage::from_fn(320, 240, |x, _| if x < 160 { image::Rgb([0, 0, 0]) } else { image::Rgb([255, 255, 255]) });
    let mut buf = std::io::Cursor::new(Vec::new());
    image::DynamicImage::ImageRgb8(img).write_to(&mut buf, image::ImageFormat::Jpeg).unwrap();
    let gray = process_frame(&buf.into_inner()).unwrap();
    assert_eq!(gray.len(), 19200);
    assert!(gray[0] < 20);
    assert!(gray[159] > 235);
    assert!(gray[160] < 20);
}
