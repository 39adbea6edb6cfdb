use camera_server::bot::{
    api_url, dispatch, notification_target, parse_command, photo_caption, poll_settings, video_caption,
    BotCommand, UpdateCursor,
};
use camera_server::config::CameraConfig;
use camera_server::registry::CameraRegistry;

fn defaults() -> CameraConfig {
    CameraConfig::default_from_env(None, None, None, None)
}

#[test]
fn commands_parse() {
    assert!(matches!(parse_command("/help"), Some(BotCommand::Help)));
    assert!(matches!(parse_command("  /list  "), Some(BotCommand::List)));
    assert!(matches!(parse_command("/motion_on cam1"), Some(BotCommand::MotionOn(id)) if id == "cam1"));
    assert!(parse_command("/motion_on").is_none());
    assert!(parse_command("   ").is_none());
    assert!(matches!(parse_command("hello there"), Some(BotCommand::Unknown(c)) if c == "hello"));
}

#[test]
fn help_and_unknown_replies() {
    let mut r = CameraRegistry::new();
    let help = dispatch(&mut r, "/help", 0).reply.unwrap();
    assert!(help.starts_with("<b>Commands</b>\n/help — this help\n"));
    assert!(help.ends_with("are available in the web dashboard."));
    assert_eq!(dispatch(&mut r, "/foo bar", 0).reply.unwrap(), "Unknown command: /foo. Try /help");
    assert!(dispatch(&mut r, "", 0).reply.is_none());
}

#[test]
fn list_without_cameras() {
    let mut r = CameraRegistry::new();
    assert_eq!(dispatch(&mut r, "/list", 0).reply.unwrap(), "No cameras registered.");
}

#[test]
fn list_shows_sorted_lines() {
    let mut r = CameraRegistry::new();
    r.register("b", defaults());
    r.register("a", defaults());
    let mut named = defaults();
    named.name = Some("Porch".to_string());
    named.motion_enabled = false;
    r.insert("c".to_string(), named);
    r.record_frame("a", 50_000);
    let reply = dispatch(&mut r, "/list", 55_000).reply.unwrap();
    assert_eq!(
        reply,
        "<b>Cameras</b>\n<code>a</code>  -  online  motion=on  notify=on\n<code>b</code>  -  offline  motion=on  notify=on\n<code>c</code>  Porch  offline  motion=off  notify=on"
    );
}

#[test]
fn toggles_reply_and_persist() {
    let mut r = CameraRegistry::new();
    r.register("cam1", defaults());
    let out = dispatch(&mut r, "/notify_off cam1", 0);
    assert_eq!(out.reply.unwrap(), "Notifications disabled for <code>cam1</code>");
    let (id, cfg) = out.persist.unwrap();
    assert_eq!(id, "cam1");
    assert!(!cfg.notifications_enabled);
    assert!(!r.config("cam1").unwrap().notifications_enabled);
    let out = dispatch(&mut r, "/motion_off ghost", 0);
    assert_eq!(out.reply.unwrap(), "Motion detection disabled for <code>ghost</code>");
    assert!(out.persist.is_none());
    assert!(!r.contains("ghost"));
}

#[test]
fn captions_and_urls() {
    assert_eq!(photo_caption("Porch"), "\u{26a0}\u{fe0f} <b>Motion on Porch</b>");
    assert_eq!(video_caption("Porch"), "\u{1f6a8} Motion ended on Porch");
    assert_eq!(api_url("T0KEN", "sendPhoto"), "https://api.telegram.org/botT0KEN/sendPhoto");
}

#[test]
fn notifications_need_token_chat_and_switch() {
    let t = Some("t".to_string());
    let c = Some("c".to_string());
    assert_eq!(notification_target(true, &t, &c), Some(("t".to_string(), "c".to_string())));
    assert_eq!(notification_target(false, &t, &c), None);
    assert_eq!(notification_target(true, &None, &c), None);
}

#[test]
fn poll_needs_numeric_chat() {
    let p = poll_settings(&Some("tok".to_string()), &Some("-100123".to_string())).unwrap();
    assert_eq!(p.chat, -100123);
    assert_eq!(p.chat_id, "-100123");
    assert!(poll_settings(&Some("tok".to_string()), &Some("group".to_string())).is_none());
    assert!(poll_settings(&None, &Some("1".to_string())).is_none());
}

#[test]
fn cursor_acknowledges_updates() {
    let mut c = UpdateCursor::new();
    assert_eq!(c.next_offset(), -1);
    assert_eq!(c.observe(Some(10), Some(5), 5, Some("/help".to_string())), Some("/help".to_string()));
    assert_eq!(c.next_offset(), 11);
    assert_eq!(c.observe(Some(3), Some(6), 5, Some("/list".to_string())), None);
    assert_eq!(c.next_offset(), 11);
    assert_eq!(c.observe(None, Some(5), 5, None), None);
    assert_eq!(c.next_offset(), 11);
}

#[test]
fn chat_ids_parse_as_i64_does() {
    for s in ["+5", "-0", "9223372036854775807", "-9223372036854775808", " 5", "", "-", "+", "9223372036854775808", "1a", "٣"] {
        let ours = poll_settings(&Some("t".to_string()), &Some(s.to_string())).map(|p| p.chat);
        assert_eq!(ours, s.parse::<i64>().ok(), "{s:?}");
    }
}

#[test]
fn offset_follows_largest_update_seen() {
    let mut c = UpdateCursor::new();
    for (id, expected) in [(Some(7), 8), (Some(3), 8), (None, 8), (Some(8), 9), (Some(20), 21)] {
        c.observe(id, Some(1), 2, None);
        assert_eq!(c.next_offset(), expected);
    }
}
