use lunar::screenshot::{
    parse_u32, scene_from_setting, screenshot_frame_from_setting, Scene, ScreenshotSchedule,
    DEFAULT_SCREENSHOT_FRAME,
};

#[test]
fn frame_setting_parses_numbers() {
    assert_eq!(screenshot_frame_from_setting(Some("240")), 240);
    assert_eq!(screenshot_frame_from_setting(Some("+7")), 7);
    assert_eq!(screenshot_frame_from_setting(Some("0")), 0);
    assert_eq!(screenshot_frame_from_setting(Some("4294967295")), u32::MAX);
}

#[test]
fn frame_setting_falls_back_to_default() {
    assert_eq!(DEFAULT_SCREENSHOT_FRAME, 180);
    assert_eq!(screenshot_frame_from_setting(None), 180);
    assert_eq!(screenshot_frame_from_setting(Some("")), 180);
    assert_eq!(screenshot_frame_from_setting(Some("abc")), 180);
    assert_eq!(screenshot_frame_from_setting(Some(" 12")), 180);
    assert_eq!(screenshot_frame_from_setting(Some("-0")), 180);
    assert_eq!(screenshot_frame_from_setting(Some("+")), 180);
    assert_eq!(screenshot_frame_from_setting(Some("4294967296")), 180);
}

#[test]
fn screenshot_is_taken_once_on_target_frame() {
    let mut schedule = ScreenshotSchedule::new(3);
    let captures: Vec<bool> = (0..6).map(|_| schedule.tick()).collect();
    assert_eq!(captures, vec![false, false, true, false, false, false]);
    assert_eq!(schedule.frame, 6);
    assert!(schedule.triggered);
}

#[test]
fn zero_target_captures_on_first_frame() {
    let mut schedule = ScreenshotSchedule::new(0);
    assert!(schedule.tick());
    assert!(!schedule.tick());
}

#[test]
fn scene_names() {
    assert_eq!(scene_from_setting(Some("autopilot")), Scene::Autopilot);
    assert_eq!(scene_from_setting(Some("landed")), Scene::Landed);
    assert_eq!(scene_from_setting(Some("Landed")), Scene::Live);
    assert_eq!(scene_from_setting(Some("")), Scene::Live);
    assert_eq!(scene_from_setting(None), Scene::Live);
}

#[test]
fn parse_u32_follows_decimal_syntax() {
    assert_eq!(parse_u32("42"), Some(42));
    assert_eq!(parse_u32("+0042"), Some(42));
    assert_eq!(parse_u32("4294967295"), Some(u32::MAX));
    assert_eq!(parse_u32("99999999999999999999"), None);
    assert_eq!(parse_u32("12a"), None);
    assert_eq!(parse_u32("++1"), None);
    assert_eq!(parse_u32("\u{0663}"), None);
    assert_eq!(parse_u32(""), None);
    for text in ["0", "+9", "-1", "1_000", " 7", "65536", "4294967296"] {
        assert_eq!(parse_u32(text), text.parse::<u32>().ok(), "{text}");
    }
}
