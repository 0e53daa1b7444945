use active_win_pos_rs::win::init_platform_api;
use active_win_pos_rs::win::platform_api::{
    description_query, get_file_description, get_process_name, get_window_title, is_shell_host,
    translation_query, WinQuery, WinReply, WinRequest, WinStage, WindowsPlatformApi,
};
use active_win_pos_rs::win::window_position::{FromWinRect, WinRect};
use active_win_pos_rs::{ActiveWindowError, PlatformApi, WindowPosition};

fn units(text: &str) -> Vec<u16> {
    text.encode_utf16().collect()
}

#[test]
fn rectangle_becomes_corner_and_size() {
    let rect = WinRect { left: 10, top: 20, right: 110, bottom: 220 };
    assert_eq!(
        WindowPosition::from_win_rect(&rect),
        WindowPosition { x: 10, y: 20, width: 100, height: 200 }
    );
}

#[test]
fn rectangle_of_any_size_fits() {
    let rect = WinRect { left: i32::MIN, top: i32::MAX, right: i32::MAX, bottom: i32::MIN };
    assert_eq!(
        WindowPosition::from_win_rect(&rect),
        WindowPosition { x: -2147483648, y: 2147483647, width: 4294967295, height: -4294967295 }
    );
}

#[test]
fn title_is_decoded_from_utf16() {
    assert_eq!(get_window_title(&units("Hi")), "Hi");
    assert_eq!(get_window_title(&[72, 105]), "Hi");
    assert_eq!(get_window_title(&units("naïve ✓ 𝄞")), "naïve ✓ 𝄞");
    assert_eq!(get_window_title(&[]), "");
    assert_eq!(get_window_title(&[0xD834, 0xDD1E]), "𝄞");
    assert_eq!(get_window_title(&[0xD834]), "\u{FFFD}");
    assert_eq!(get_window_title(&[0xDD1E, 0x41]), "\u{FFFD}A");
    assert_eq!(get_window_title(&[0xD834, 0x41, 0xDD1E]), "\u{FFFD}A\u{FFFD}");
    assert_eq!(get_window_title(&[0xD834, 0xD834, 0xDD1E]), "\u{FFFD}𝄞");
}

#[test]
fn description_loses_the_nuls_at_its_ends() {
    assert_eq!(get_file_description(&units("Text Editor\0")), "Text Editor");
    assert_eq!(get_file_description(&units("\0\0A\0B\0\0")), "A\0B");
    assert_eq!(get_file_description(&units("\0")), "");
    assert_eq!(get_file_description(&[]), "");
}

#[test]
fn version_queries() {
    assert_eq!(translation_query(), "\\VarFileInfo\\Translation");
    assert_eq!(description_query(0x0409, 0x04b0), "\\StringFileInfo\\040904b0\\FileDescription");
    assert_eq!(description_query(0, 0xFFFF), "\\StringFileInfo\\0000ffff\\FileDescription");
    assert_eq!(
        description_query(1033, 1200),
        format!("\\StringFileInfo\\{:04x}{:04x}\\FileDescription", 1033, 1200)
    );
}

#[test]
fn process_name_prefers_the_description() {
    assert_eq!(get_process_name("Text Editor", "C:\\Tools\\edit.exe"), "Text Editor");
    assert_eq!(get_process_name("", "C:\\Tools\\edit.exe"), "edit");
    assert_eq!(get_process_name("", "C:/Tools/edit.tar.gz"), "edit.tar");
    assert_eq!(get_process_name("", "C:\\Tools\\noext"), "noext");
    assert_eq!(get_process_name("", "C:\\Tools\\.hidden"), ".hidden");
    assert_eq!(get_process_name("", "C:\\Tools\\dot."), "dot");
    assert_eq!(get_process_name("", "edit.exe"), "edit");
    assert_eq!(get_process_name("", "C:\\some.dir\\edit"), "edit");
    assert_eq!(get_process_name("", ""), "");
}

#[test]
fn shell_host_is_known_by_its_file_name() {
    assert!(is_shell_host("C:\\Windows\\System32\\ApplicationFrameHost.exe"));
    assert!(is_shell_host("ApplicationFrameHost.exe"));
    assert!(is_shell_host("C:/Windows/ApplicationFrameHost.exe"));
    assert!(!is_shell_host("C:\\Windows\\System32\\applicationframehost.exe"));
    assert!(!is_shell_host("C:\\Windows\\System32\\ApplicationFrameHost.exe\\x"));
    assert!(!is_shell_host("C:\\Windows\\System32\\NotApplicationFrameHost.exe"));
    assert!(!is_shell_host(""));
}

fn plain() -> Vec<WinReply> {
    vec![
        WinReply::Handle { raw: 0x1234, text: "HWND(4660)".to_string() },
        WinReply::Rect(WinRect { left: 10, top: 20, right: 110, bottom: 220 }),
        WinReply::Units(units("notes.txt - Editor")),
        WinReply::ProcessId(4321),
        WinReply::Path("C:\\Tools\\edit.exe".to_string()),
        WinReply::Translation { language: 0x0409, code_page: 0x04b0 },
        WinReply::Units(units("Text Editor\0")),
    ]
}

fn hosted() -> Vec<WinReply> {
    vec![
        WinReply::Handle { raw: 0x1234, text: "HWND(4660)".to_string() },
        WinReply::Rect(WinRect { left: 10, top: 20, right: 110, bottom: 220 }),
        WinReply::Units(units("Calculator")),
        WinReply::ProcessId(4321),
        WinReply::Path("C:\\Windows\\System32\\ApplicationFrameHost.exe".to_string()),
        WinReply::Translation { language: 0x0409, code_page: 0x04b0 },
        WinReply::Units(units("Application Frame Host\0")),
        WinReply::GuiThread { focus: 0, active: 0x77 },
        WinReply::ProcessId(999),
        WinReply::Path("C:\\Apps\\Calculator.exe".to_string()),
        WinReply::Failed,
    ]
}

#[test]
fn windows_query_asks_one_thing_after_another() {
    let mut query = WinQuery::start();
    let expected = [
        WinRequest::ForegroundWindow,
        WinRequest::WindowRect { handle: 0x1234 },
        WinRequest::WindowText { handle: 0x1234 },
        WinRequest::ProcessId { handle: 0x1234 },
        WinRequest::ProcessPath { pid: 4321 },
        WinRequest::VersionTranslation,
        WinRequest::VersionDescription,
    ];
    for (reply, request) in plain().iter().zip(expected.iter()) {
        assert_eq!(query.request(), *request);
        if *request == WinRequest::VersionTranslation {
            assert_eq!(query.executable(), "C:\\Tools\\edit.exe");
        }
        if *request == WinRequest::VersionDescription {
            assert_eq!(
                query.description_path(),
                "\\StringFileInfo\\040904b0\\FileDescription"
            );
        }
        query.advance(reply);
    }
    assert_eq!(query.request(), WinRequest::Nothing);
    assert_eq!(query.stage, WinStage::Found);
    let window = query.finish().unwrap();
    assert_eq!(window.title, "notes.txt - Editor");
    assert_eq!(window.app_name, "Text Editor");
    assert_eq!(window.process_path, "C:\\Tools\\edit.exe");
    assert_eq!(window.window_id, "HWND(4660)");
    assert_eq!(window.process_id, 4321);
    assert_eq!(window.position, WindowPosition { x: 10, y: 20, width: 100, height: 200 });
}

#[test]
fn shell_host_gives_way_to_the_hosted_application() {
    let mut query = WinQuery::start();
    let expected = [
        WinRequest::ForegroundWindow,
        WinRequest::WindowRect { handle: 0x1234 },
        WinRequest::WindowText { handle: 0x1234 },
        WinRequest::ProcessId { handle: 0x1234 },
        WinRequest::ProcessPath { pid: 4321 },
        WinRequest::VersionTranslation,
        WinRequest::VersionDescription,
        WinRequest::GuiThread,
        WinRequest::ProcessId { handle: 0x77 },
        WinRequest::ProcessPath { pid: 999 },
        WinRequest::VersionTranslation,
    ];
    for (reply, request) in hosted().iter().zip(expected.iter()) {
        assert_eq!(query.request(), *request);
        query.advance(reply);
    }
    assert_eq!(query.stage, WinStage::Found);
    let window = query.finish().unwrap();
    assert_eq!(window.title, "Calculator");
    assert_eq!(window.app_name, "Calculator");
    assert_eq!(window.process_path, "C:\\Apps\\Calculator.exe");
    assert_eq!(window.process_id, 999);
    assert_eq!(window.window_id, "HWND(4660)");
    assert_eq!(window.position, WindowPosition { x: 10, y: 20, width: 100, height: 200 });
}

#[test]
fn focused_window_is_preferred_to_the_active_one() {
    let mut replies = hosted();
    replies[7] = WinReply::GuiThread { focus: 0x55, active: 0x77 };
    let mut query = WinQuery::start();
    for reply in replies.iter().take(8) {
        query.advance(reply);
    }
    assert_eq!(query.request(), WinRequest::ProcessId { handle: 0x55 });
}

#[test]
fn host_of_a_host_is_not_looked_behind_again() {
    let mut replies = hosted();
    replies[9] = WinReply::Path("D:\\ApplicationFrameHost.exe".to_string());
    let api = WindowsPlatformApi {};
    let window = api.get_active_window(&replies).unwrap();
    assert_eq!(window.app_name, "ApplicationFrameHost");
    assert_eq!(window.process_id, 999);
}

#[test]
fn hosted_application_without_path_leaves_no_trace_of_the_host() {
    let mut replies = hosted();
    replies.truncate(9);
    replies.push(WinReply::Failed);
    let window = WindowsPlatformApi {}.get_active_window(&replies).unwrap();
    assert_eq!(window.process_id, 999);
    assert_eq!(window.process_path, "");
    assert_eq!(window.app_name, "");
    let mut unknown = hosted();
    unknown.truncate(8);
    unknown.push(WinReply::ProcessId(0));
    assert_eq!(
        WindowsPlatformApi {}.get_active_window(&unknown),
        Err(ActiveWindowError::GetActiveWindowFailed)
    );
    let mut silent = hosted();
    silent.truncate(7);
    silent.push(WinReply::Failed);
    assert!(WindowsPlatformApi {}.get_active_window(&silent).is_err());
}

#[test]
fn query_fails_without_window_rectangle_or_process() {
    let api = init_platform_api();
    assert_eq!(api, WindowsPlatformApi {});
    let mut null = plain();
    null[0] = WinReply::Handle { raw: 0, text: "HWND(0)".to_string() };
    assert_eq!(api.get_active_window(&null), Err(ActiveWindowError::GetActiveWindowFailed));
    assert_eq!(api.get_position(&null), Err(ActiveWindowError::GetActiveWindowFailed));
    let mut no_handle = plain();
    no_handle[0] = WinReply::Failed;
    assert!(api.get_active_window(&no_handle).is_err());
    assert!(api.get_position(&no_handle).is_err());
    let mut no_rect = plain();
    no_rect[1] = WinReply::Failed;
    assert!(api.get_active_window(&no_rect).is_err());
    assert_eq!(api.get_position(&no_rect), Err(ActiveWindowError::GetActiveWindowFailed));
    let mut no_pid = plain();
    no_pid[3] = WinReply::ProcessId(0);
    assert!(api.get_active_window(&no_pid).is_err());
    assert!(api.get_active_window(&Vec::new()).is_err());
    assert!(api.get_position(&Vec::new()).is_err());
}

#[test]
fn position_needs_window_and_rectangle_only() {
    let api = WindowsPlatformApi {};
    let expected = WindowPosition { x: 10, y: 20, width: 100, height: 200 };
    let mut first_two = plain();
    first_two.truncate(2);
    assert_eq!(api.get_position(&first_two), Ok(expected));
    let mut no_pid = plain();
    no_pid[3] = WinReply::Failed;
    assert_eq!(api.get_position(&no_pid), Ok(expected));
    assert_eq!(api.get_position(&plain()), Ok(expected));
    assert_eq!(api.get_active_window(&plain()).unwrap().position, expected);
    assert_eq!(api.get_position(&hosted()), Ok(expected));
}

#[test]
fn position_request_stops_at_the_rectangle() {
    let mut query = WinQuery::start();
    assert_eq!(query.position_request(), WinRequest::ForegroundWindow);
    query.advance(&plain()[0]);
    assert_eq!(query.position_request(), WinRequest::WindowRect { handle: 0x1234 });
    query.advance(&plain()[1]);
    assert_eq!(query.position_request(), WinRequest::Nothing);
    assert_eq!(query.request(), WinRequest::WindowText { handle: 0x1234 });
    assert_eq!(query.position(), Ok(WindowPosition { x: 10, y: 20, width: 100, height: 200 }));
    let mut failed = WinQuery::start();
    failed.advance(&WinReply::Failed);
    assert_eq!(failed.position_request(), WinRequest::Nothing);
    assert_eq!(failed.position(), Err(ActiveWindowError::GetActiveWindowFailed));
}

#[test]
fn query_does_without_text_path_and_description() {
    let api = WindowsPlatformApi {};
    let mut untitled = plain();
    untitled[2] = WinReply::Units(Vec::new());
    assert_eq!(api.get_active_window(&untitled).unwrap().title, "");
    let mut no_text = plain();
    no_text[2] = WinReply::Failed;
    assert_eq!(api.get_active_window(&no_text).unwrap().title, "");
    let mut no_path = plain();
    no_path.truncate(4);
    no_path.push(WinReply::Failed);
    let window = api.get_active_window(&no_path).unwrap();
    assert_eq!(window.process_path, "");
    assert_eq!(window.app_name, "");
    assert_eq!(window.process_id, 4321);
    let mut no_translation = plain();
    no_translation.truncate(5);
    no_translation.push(WinReply::Failed);
    assert_eq!(api.get_active_window(&no_translation).unwrap().app_name, "edit");
    let mut no_description = plain();
    no_description[6] = WinReply::Failed;
    assert_eq!(api.get_active_window(&no_description).unwrap().app_name, "edit");
    let mut empty_description = plain();
    empty_description[6] = WinReply::Units(units("\0\0"));
    assert_eq!(api.get_active_window(&empty_description).unwrap().app_name, "edit");
}
