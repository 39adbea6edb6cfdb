use camera_server::config::{CameraConfig, ConfigUpdate, DEFAULT_MOTION_PERCENT_BITS};
use camera_server::registry::{CameraRegistry, ConfigError};

fn defaults() -> CameraConfig {
    CameraConfig::default_from_env(None, None, None, None)
}

fn no_change() -> ConfigUpdate {
    ConfigUpdate {
        name: None,
        rotation: None,
        mirror: None,
        motion_enabled: None,
        notifications_enabled: None,
        pixel_threshold: None,
        motion_percent_bits: None,
        motion_check_every: None,
        motion_timeout_ms: None,
    }
}

fn rename(name: &str) -> ConfigUpdate {
    ConfigUpdate { name: Some(name.to_string()), ..no_change() }
}

#[test]
fn defaults_for_new_cameras() {
    let c = defaults();
    assert_eq!(c.name, None);
    assert_eq!(c.rotation, 0);
    assert!(!c.mirror);
    assert!(c.motion_enabled);
    assert!(c.notifications_enabled);
    assert_eq!(c.pixel_threshold, 40);
    assert_eq!(c.motion_percent_bits, 1.0f32.to_bits());
    assert_eq!(DEFAULT_MOTION_PERCENT_BITS, 1.0f32.to_bits());
    assert_eq!(c.motion_check_every, 5);
    assert_eq!(c.motion_timeout_ms, 60_000);
}

#[test]
fn environment_overrides_defaults() {
    let c = CameraConfig::default_from_env(Some(25), Some(2.5f32.to_bits()), Some(3), Some(10_000));
    assert_eq!(c.pixel_threshold, 25);
    assert_eq!(f32::from_bits(c.motion_percent_bits), 2.5);
    assert_eq!(c.motion_check_every, 3);
    assert_eq!(c.motion_timeout_ms, 10_000);
}

#[test]
fn updates_trim_names_and_ignore_odd_rotations() {
    let mut c = defaults();
    c.apply(&ConfigUpdate { name: Some("  Porch  ".to_string()), rotation: Some(45), ..no_change() });
    assert_eq!(c.name, Some("Porch".to_string()));
    assert_eq!(c.rotation, 0);
    c.apply(&ConfigUpdate { rotation: Some(270), mirror: Some(true), pixel_threshold: Some(9), ..no_change() });
    assert_eq!(c.rotation, 270);
    assert!(c.mirror);
    assert_eq!(c.pixel_threshold, 9);
    c.apply(&rename("   "));
    assert_eq!(c.name, None);
}

#[test]
fn same_update_twice_is_once() {
    let u = ConfigUpdate { name: Some(" Yard ".to_string()), rotation: Some(90), motion_timeout_ms: Some(5), ..no_change() };
    let mut once = defaults();
    once.apply(&u);
    let mut twice = defaults();
    twice.apply(&u);
    twice.apply(&u);
    assert_eq!(once.name, twice.name);
    assert_eq!(once.rotation, twice.rotation);
    assert_eq!(once.motion_timeout_ms, twice.motion_timeout_ms);
}

#[test]
fn register_keeps_known_cameras() {
    let mut r = CameraRegistry::new();
    assert!(r.register("cam1", defaults()));
    r.update_config("cam1", &rename("Porch")).ok().unwrap();
    assert!(!r.register("cam1", defaults()));
    assert_eq!(r.config("cam1").unwrap().name, Some("Porch".to_string()));
    assert_eq!(r.len(), 1);
}

#[test]
fn settings_read_back_after_update() {
    let mut r = CameraRegistry::new();
    r.register("cam1", defaults());
    let c = r.update_config("cam1", &ConfigUpdate { motion_check_every: Some(2), ..no_change() }).ok().unwrap();
    assert_eq!(c.motion_check_every, 2);
    assert_eq!(r.config("cam1").unwrap().motion_check_every, 2);
}

#[test]
fn unknown_camera_update_is_not_found() {
    let mut r = CameraRegistry::new();
    assert!(matches!(r.update_config("ghost", &rename("x")), Err(ConfigError::NotFound)));
    assert!(!r.contains("ghost"));
}

#[test]
fn taken_names_are_refused() {
    let mut r = CameraRegistry::new();
    r.register("a", defaults());
    r.register("b", defaults());
    r.update_config("a", &rename("Porch")).ok().unwrap();
    assert!(matches!(r.update_config("b", &rename(" Porch ")), Err(ConfigError::NameTaken)));
    assert_eq!(r.config("b").unwrap().name, None);
    assert!(r.update_config("a", &rename("Porch")).is_ok());
    assert!(r.update_config("b", &rename("")).is_ok());
}

#[test]
fn delete_forgets_camera() {
    let mut r = CameraRegistry::new();
    r.register("a", defaults());
    assert!(r.delete("a"));
    assert!(!r.contains("a"));
    assert!(!r.delete("a"));
}

#[test]
fn frames_are_counted() {
    let mut r = CameraRegistry::new();
    assert_eq!(r.record_frame("a", 5), None);
    r.register("a", defaults());
    assert_eq!(r.record_frame("a", 1_000), Some((0, 1)));
    assert_eq!(r.record_frame("a", 1_500), Some((1_000, 2)));
}

#[test]
fn summaries_in_id_order() {
    let mut r = CameraRegistry::new();
    for id in ["zeta", "alpha", "Mid", "beta"] {
        r.register(id, defaults());
    }
    r.record_frame("beta", 100_000);
    let s = r.summaries(105_000);
    let ids: Vec<&str> = s.iter().map(|c| c.id.as_str()).collect();
    assert_eq!(ids, vec!["Mid", "alpha", "beta", "zeta"]);
    assert!(s[2].active);
    assert_eq!(s[2].frame_count, 1);
    assert!(!s[0].active);
}

#[test]
fn insert_replaces_loaded_camera() {
    let mut r = CameraRegistry::new();
    r.insert("a".to_string(), defaults());
    r.record_frame("a", 10);
    let mut c = defaults();
    c.mirror = true;
    r.insert("a".to_string(), c);
    assert!(r.config("a").unwrap().mirror);
    assert_eq!(r.summaries(10)[0].frame_count, 0);
}

#[test]
fn toggles_change_one_switch() {
    let mut r = CameraRegistry::new();
    r.register("a", defaults());
    let c = r.set_motion_enabled("a", false).unwrap();
    assert!(!c.motion_enabled);
    assert!(c.notifications_enabled);
    let c = r.set_notifications_enabled("a", false).unwrap();
    assert!(!c.notifications_enabled);
    assert!(r.set_motion_enabled("nope", true).is_none());
}

#[test]
fn deleted_camera_reappears_with_defaults() {
    let mut r = CameraRegistry::new();
    r.register("a", defaults());
    r.update_config("a", &ConfigUpdate { name: Some("Porch".to_string()), rotation: Some(90), ..no_change() })
        .ok()
        .unwrap();
    r.record_frame("a", 10);
    assert!(r.delete("a"));
    assert!(r.register("a", defaults()));
    let c = r.config("a").unwrap();
    assert_eq!(c.name, None);
    assert_eq!(c.rotation, 0);
    assert_eq!(r.summaries(10)[0].frame_count, 0);
}
