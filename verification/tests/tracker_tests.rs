use camera_server::clock::Timestamp;
use camera_server::session::plan_session;
use camera_server::tracker::{MotionStep, MotionTracker, TimeoutStep};

fn strings(v: &[&str]) -> Vec<String> {
    v.iter().map(|s| s.to_string()).collect()
}

#[test]
fn every_nth_frame_is_checked() {
    let mut t = MotionTracker::new();
    let checks: Vec<bool> = (0..10).map(|_| t.begin_frame(true, 5).check).collect();
    assert_eq!(checks, vec![false, false, false, false, true, false, false, false, false, true]);
    let mut off = MotionTracker::new();
    assert!(!off.begin_frame(false, 0).check);
}

#[test]
fn check_hands_out_previous_frame() {
    let mut t = MotionTracker::new();
    let first = t.begin_frame(true, 1);
    assert!(first.check);
    assert!(first.prev.is_none());
    t.record_analysis(vec![1, 2, 3], false, 10);
    assert_eq!(t.begin_frame(true, 1).prev, Some(vec![1, 2, 3]));
    assert_eq!(t.begin_frame(true, 2).prev, None);
}

#[test]
fn motion_starts_then_continues() {
    let mut t = MotionTracker::new();
    assert!(matches!(t.record_analysis(vec![0], false, 1), MotionStep::NoMotion));
    assert!(matches!(t.record_analysis(vec![0], true, 2), MotionStep::Starting));
    assert!(!t.saving());
    t.start_session("05-03-2024_07-08-09".to_string(), "Porch".to_string(), 2);
    assert!(t.saving());
    assert!(matches!(t.record_analysis(vec![0], true, 3), MotionStep::Continuing));
}

#[test]
fn frames_saved_only_in_session() {
    let mut t = MotionTracker::new();
    assert_eq!(t.frame_path("esp1", 1), None);
    t.start_session("05-03-2024_07-08-09".to_string(), "Porch".to_string(), 0);
    assert_eq!(t.frame_path("esp1", 42), Some(strings(&["Porch", "05-03-2024", ".raw", "07-08-09", "frame_000042.jpg"])));
}

#[test]
fn session_times_out_once() {
    let mut t = MotionTracker::new();
    assert!(matches!(t.timeout_tick(100, 50), TimeoutStep::Stop));
    t.record_analysis(vec![0], true, 1_000);
    t.start_session("s_1".to_string(), "cam".to_string(), 1_000);
    t.record_analysis(vec![0], true, 5_000);
    assert!(matches!(t.timeout_tick(5_000 + 59_999, 60_000), TimeoutStep::Wait));
    match t.timeout_tick(5_000 + 60_000, 60_000) {
        TimeoutStep::Finalize(session, duration) => {
            assert_eq!(session, "s_1");
            assert_eq!(duration, 64_000);
        },
        _ => panic!("session should close"),
    }
    assert!(!t.saving());
    assert!(matches!(t.timeout_tick(200_000, 60_000), TimeoutStep::Stop));
    assert_eq!(t.frame_path("cam", 1), None);
    assert_eq!(t.timer_dir_name("esp"), "cam");
}

#[test]
fn timer_name_falls_back_to_camera_id() {
    let t = MotionTracker::new();
    assert_eq!(t.timer_dir_name("esp1"), "esp1");
}

#[test]
fn session_plan_uses_sanitized_display_name() {
    let t = Timestamp { year: 2024, month: 11, day: 2, hour: 21, minute: 5, second: 30 };
    let p = plan_session(&Some("Front Door".to_string()), "esp1", &t);
    assert_eq!(p.session, "02-11-2024_21-05-30");
    assert_eq!(p.display_name, "Front Door");
    assert_eq!(p.cam_dir, "Front_Door");
    assert_eq!(p.frames_dir, strings(&["Front_Door", "02-11-2024", ".raw", "21-05-30"]));
    let q = plan_session(&None, "esp/1", &t);
    assert_eq!(q.cam_dir, "esp_1");
}
