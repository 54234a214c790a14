use pine::assets::{AssetTable, add_texture2d, contains_text, texture_key};
use pine::events::{EventLoop, Hook, RegisteredHooks, WindowEvent};
use pine::math::Point;
use pine::util::RuntimeException;
use pine::video::{PlaybackStep, VideoSettings, pack_rgba_rows, playback_step};

#[test]
fn text_containment() {
    assert!(contains_text("player.png", ".png"));
    assert!(contains_text("abc", ""));
    assert!(contains_text("abc", "abc"));
    assert!(!contains_text("abc", "abcd"));
    assert!(!contains_text("player", ".png"));
    assert!(contains_text("aab", "ab"));
}

#[test]
fn texture_keys() {
    assert_eq!(texture_key("player"), "assets/textures/player.png");
    assert_eq!(texture_key("player.png"), "assets/textures/player.png");
    assert_eq!(texture_key("my_texture.png"), "assets/textures/my_texture.png");
    assert_eq!(texture_key("photo.jpg"), "assets/textures/photo.jpg");
    assert_eq!(texture_key("x.jpg.png"), "assets/textures/x.jpg.png");
    assert_eq!(texture_key(""), "assets/textures/.png");
}

#[test]
fn asset_table_keeps_first() {
    let mut t: AssetTable<i32> = AssetTable::new();
    assert!(!t.contains_key("a"));
    assert!(t.insert_if_absent("a".to_string(), 1));
    assert!(!t.insert_if_absent("a".to_string(), 2));
    assert_eq!(t.get("a"), Some(&1));
    assert_eq!(t.get("b"), None);
    assert!(t.contains_key("a"));
}

#[test]
fn add_texture_uses_normalised_path() {
    let mut t: AssetTable<&str> = AssetTable::new();
    assert!(add_texture2d(&mut t, "player", "texture"));
    assert!(!add_texture2d(&mut t, "player", "other"));
    assert!(!add_texture2d(&mut t, "player.png", "same path"));
    assert_eq!(t.get("assets/textures/player.png"), Some(&"texture"));
}

fn all_hooks() -> RegisteredHooks {
    RegisteredHooks {
        key_down: true,
        key_down_no_commands: true,
        mouse_button_down: true,
        mouse_button_down_no_commands: true,
        mouse_motion: true,
        mouse_motion_no_commands: true,
    }
}

#[test]
fn quit_stops_the_loop() {
    let mut l = EventLoop::start();
    assert!(l.running);
    assert!(l.handle_event(WindowEvent::Quit, all_hooks()).is_empty());
    assert!(!l.running);
    l.handle_event(WindowEvent::KeyDown(32), all_hooks());
    assert!(!l.running);
}

#[test]
fn events_trigger_registered_hooks_in_order() {
    let mut l = EventLoop::start();
    assert_eq!(
        l.handle_event(WindowEvent::KeyDown(32), all_hooks()),
        vec![Hook::KeyDown(32), Hook::KeyDownNoCommands(32)]
    );
    assert_eq!(
        l.handle_event(WindowEvent::MouseButtonDown(1, Point(3, 4)), all_hooks()),
        vec![Hook::MouseButtonDown(1, Point(3, 4)), Hook::MouseButtonDownNoCommands(1, Point(3, 4))]
    );
    assert_eq!(
        l.handle_event(WindowEvent::MouseMotion(Point(5, 6)), all_hooks()),
        vec![Hook::MouseMotion(Point(5, 6)), Hook::MouseMotionNoCommands(Point(5, 6))]
    );
    assert!(l.handle_event(WindowEvent::Other, all_hooks()).is_empty());
    assert!(l.running);
}

#[test]
fn unregistered_hooks_are_skipped() {
    let mut l = EventLoop::start();
    let only_plain = RegisteredHooks {
        key_down: false,
        key_down_no_commands: true,
        mouse_button_down: false,
        mouse_button_down_no_commands: false,
        mouse_motion: true,
        mouse_motion_no_commands: false,
    };
    assert_eq!(l.handle_event(WindowEvent::KeyDown(8), only_plain), vec![Hook::KeyDownNoCommands(8)]);
    assert!(l.handle_event(WindowEvent::MouseButtonDown(3, Point(0, 0)), only_plain).is_empty());
    assert_eq!(l.handle_event(WindowEvent::MouseMotion(Point(1, 1)), only_plain), vec![Hook::MouseMotion(Point(1, 1))]);
}

#[test]
fn errors_are_recorded_and_first_is_fatal() {
    let mut l = EventLoop::start();
    assert!(l.fatal_error().is_none());
    l.record(Ok(()));
    assert!(l.fatal_error().is_none());
    l.record(Err(RuntimeException::new("first")));
    l.record(Err(RuntimeException::new("second")));
    assert_eq!(l.errors.len(), 2);
    assert_eq!(l.fatal_error().unwrap().0, "first");
    assert!(l.running);
}

#[test]
fn playback_steps() {
    assert_eq!(playback_step(VideoSettings::HIDE_ON_FINISH, true), PlaybackStep::Hide);
    assert_eq!(playback_step(VideoSettings::REPEATING, true), PlaybackStep::Restart);
    assert_eq!(playback_step(VideoSettings::DEFAULT, true), PlaybackStep::Show);
    assert_eq!(playback_step(VideoSettings::HIDE_ON_FINISH, false), PlaybackStep::Show);
    assert_eq!(playback_step(VideoSettings::REPEATING, false), PlaybackStep::Show);
}

#[test]
fn packing_drops_row_padding() {
    // Two rows of one pixel each, rows 6 bytes apart.
    let data = [1u8, 2, 3, 4, 90, 91, 5, 6, 7, 8];
    assert_eq!(pack_rgba_rows(&data, 6, 1, 2), vec![1, 2, 3, 4, 5, 6, 7, 8]);
}

#[test]
fn packing_without_padding_copies_everything() {
    let data: Vec<u8> = (0..16).collect();
    assert_eq!(pack_rgba_rows(&data, 8, 2, 2), data);
    assert!(pack_rgba_rows(&data, 8, 2, 0).is_empty());
}
