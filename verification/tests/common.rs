use active_win_pos_rs::common::active_window::is_same_window;
use active_win_pos_rs::mac::platform_api::{MacAnswers, MacPlatformApi};
use active_win_pos_rs::{
    get_active_window, get_position, ActiveWindow, ActiveWindowError, WindowPosition,
};

#[test]
fn default_position_is_the_zero_rectangle() {
    assert_eq!(WindowPosition::default(), WindowPosition { x: 0, y: 0, width: 0, height: 0 });
    assert_eq!(WindowPosition::default(), WindowPosition::new(0, 0, 0, 0));
}

#[test]
fn new_position_keeps_its_arguments() {
    let position = WindowPosition::new(1, -2, 3, 4);
    assert_eq!(position.x, 1);
    assert_eq!(position.y, -2);
    assert_eq!(position.width, 3);
    assert_eq!(position.height, 4);
}

#[test]
fn error_message() {
    assert_eq!(ActiveWindowError::GetActiveWindowFailed.message(), "couldn't get active window");
}

#[test]
fn records_are_equal_by_process_and_window() {
    let a = ActiveWindow {
        title: "one".to_string(),
        process_path: "/bin/a".to_string(),
        app_name: "a".to_string(),
        window_id: "42".to_string(),
        process_id: 7,
        position: WindowPosition::new(1, 2, 3, 4),
    };
    let mut b = a.clone();
    b.title = "two".to_string();
    b.position = WindowPosition::new(5, 6, 7, 8);
    b.process_path = "/bin/b".to_string();
    b.app_name = "b".to_string();
    assert!(a == b);
    let mut c = a.clone();
    c.process_id = 8;
    assert!(a != c);
    let mut d = a.clone();
    d.window_id = "43".to_string();
    assert!(a != d);
}

#[test]
fn same_window_is_equality() {
    let a = ActiveWindow { window_id: "1".to_string(), process_id: 2, ..ActiveWindow::default() };
    let b = ActiveWindow { title: "t".to_string(), ..a.clone() };
    let c = ActiveWindow { window_id: "2".to_string(), ..a.clone() };
    assert!(is_same_window(&a, &b));
    assert!(!is_same_window(&a, &c));
    assert_eq!(is_same_window(&a, &c), a == c);
}

#[test]
fn default_record_is_empty() {
    let window = ActiveWindow::default();
    assert_eq!(window.title, "");
    assert_eq!(window.process_path, "");
    assert_eq!(window.app_name, "");
    assert_eq!(window.window_id, "");
    assert_eq!(window.process_id, 0);
    assert_eq!(window.position, WindowPosition::default());
}

#[test]
fn dispatcher_delegates_to_the_platform() {
    let api = MacPlatformApi {};
    let nothing = MacAnswers { frontmost_pid: 1, bundle_path: None, windows: Vec::new() };
    assert_eq!(get_active_window(&api, &nothing), Err(ActiveWindowError::GetActiveWindowFailed));
    assert_eq!(get_position(&api, &nothing), Err(ActiveWindowError::GetActiveWindowFailed));
}
