use active_win_pos_rs::linux::init_platform_api;
use active_win_pos_rs::linux::platform_api::{
    application_name, get_xcb_active_window_atom, get_xcb_translated_position,
    get_xcb_window_class, get_xcb_window_pid, get_xcb_window_title, AtomName, LinuxPlatformApi,
    XGeometry, XQuery, XReply, XRequest, XStage, ATOM_NONE,
};
use active_win_pos_rs::{ActiveWindowError, PlatformApi, WindowPosition};

#[test]
fn application_name_is_the_last_part_of_the_class() {
    assert_eq!(application_name("instance\u{0}ClassName\u{0}"), "ClassName");
    assert_eq!(application_name("instance\u{0}ClassName"), "ClassName");
    assert_eq!(application_name("only"), "only");
    assert_eq!(application_name("only\u{0}\u{0}\u{0}"), "only");
    assert_eq!(application_name("\u{0}\u{0}"), "");
    assert_eq!(application_name(""), "");
    assert_eq!(application_name("a\u{0}b\u{0}c\u{0}"), "c");
}

#[test]
fn active_window_atom_must_exist() {
    assert_eq!(get_xcb_active_window_atom(ATOM_NONE), None);
    assert_eq!(get_xcb_active_window_atom(0), None);
    assert_eq!(get_xcb_active_window_atom(345), Some(345));
}

#[test]
fn pid_is_the_first_item_if_there_is_one() {
    assert_eq!(get_xcb_window_pid(&vec![4321]), Some(4321));
    assert_eq!(get_xcb_window_pid(&vec![7, 8]), Some(7));
    assert_eq!(get_xcb_window_pid(&vec![0]), Some(0));
    assert_eq!(get_xcb_window_pid(&vec![]), None);
}

#[test]
fn title_and_class_are_utf8_or_empty() {
    assert_eq!(get_xcb_window_title(b"xterm"), "xterm");
    assert_eq!(get_xcb_window_title("naïve ✓".as_bytes()), "naïve ✓");
    assert_eq!(get_xcb_window_title(&[0xe9, 0x74, 0xe9]), "");
    assert_eq!(get_xcb_window_title(b""), "");
    assert_eq!(get_xcb_window_class(b"xterm\0XTerm\0"), "xterm\0XTerm\0");
    assert_eq!(get_xcb_window_class(&[0xff]), "");
}

#[test]
fn position_is_translated_to_the_screen() {
    let geometry = XGeometry { x: 2, y: 25, width: 640, height: 480, root: 1 };
    assert_eq!(
        get_xcb_translated_position(&geometry, 102, 225),
        WindowPosition { x: 100, y: 200, width: 640, height: 480 }
    );
    let far = XGeometry { x: i16::MAX, y: i16::MIN, width: u16::MAX, height: 0, root: 1 };
    assert_eq!(
        get_xcb_translated_position(&far, i16::MIN, i16::MAX),
        WindowPosition { x: -65535, y: 65535, width: 65535, height: 0 }
    );
}

#[test]
fn atom_names() {
    assert_eq!(AtomName::ActiveWindow.text(), "_NET_ACTIVE_WINDOW");
    assert_eq!(AtomName::ProcessId.text(), "_NET_WM_PID");
}

fn complete() -> Vec<XReply> {
    vec![
        XReply::Connected,
        XReply::Id(345),
        XReply::Id(1),
        XReply::Items(vec![0x2a00007]),
        XReply::Id(346),
        XReply::Items(vec![4321]),
        XReply::Geometry(XGeometry { x: 2, y: 25, width: 640, height: 480, root: 1 }),
        XReply::Point { x: 102, y: 225 },
        XReply::Bytes(b"notes.txt".to_vec()),
        XReply::Bytes(b"editor\0Editor\0".to_vec()),
        XReply::Path("/usr/bin/editor".to_string()),
    ]
}

#[test]
fn x11_query_asks_one_thing_after_another() {
    let mut query = XQuery::start();
    let expected = [
        XRequest::Connect,
        XRequest::InternAtom(AtomName::ActiveWindow),
        XRequest::RootWindow,
        XRequest::ActiveWindow { root: 1, atom: 345 },
        XRequest::InternAtom(AtomName::ProcessId),
        XRequest::ProcessId { window: 0x2a00007, atom: 346 },
        XRequest::Geometry { window: 0x2a00007 },
        XRequest::Translate { root: 1, window: 0x2a00007, x: 2, y: 25 },
        XRequest::Title { window: 0x2a00007 },
        XRequest::Class { window: 0x2a00007 },
        XRequest::Executable { pid: 4321 },
    ];
    for (reply, request) in complete().iter().zip(expected.iter()) {
        assert_eq!(query.request(), *request);
        query.advance(reply);
    }
    assert_eq!(query.request(), XRequest::Nothing);
    assert_eq!(query.stage, XStage::Found);
    let window = query.finish().unwrap();
    assert_eq!(window.title, "notes.txt");
    assert_eq!(window.app_name, "Editor");
    assert_eq!(window.window_id, "44040199");
    assert_eq!(window.process_id, 4321);
    assert_eq!(window.process_path, "/usr/bin/editor");
    assert_eq!(window.position, WindowPosition { x: 100, y: 200, width: 640, height: 480 });
}

#[test]
fn platform_gives_record_and_position_alike() {
    let api = init_platform_api();
    let window = api.get_active_window(&complete()).unwrap();
    assert_eq!(api.get_position(&complete()), Ok(window.position));
    assert_eq!(window.position, WindowPosition { x: 100, y: 200, width: 640, height: 480 });
    assert_eq!(api, LinuxPlatformApi {});
}

#[test]
fn query_fails_without_what_it_needs() {
    let api = LinuxPlatformApi {};
    for missing in 0..8 {
        let mut replies = complete();
        replies[missing] = XReply::Failed;
        assert_eq!(
            api.get_active_window(&replies),
            Err(ActiveWindowError::GetActiveWindowFailed)
        );
        assert_eq!(api.get_position(&replies), Err(ActiveWindowError::GetActiveWindowFailed));
    }
    let mut unknown = complete();
    unknown[1] = XReply::Id(ATOM_NONE);
    assert!(api.get_active_window(&unknown).is_err());
    let mut unnamed = complete();
    unnamed[3] = XReply::Items(vec![]);
    assert!(api.get_active_window(&unnamed).is_err());
    assert!(api.get_active_window(&Vec::new()).is_err());
    let mut short = complete();
    short.pop();
    assert!(api.get_active_window(&short).is_err());
}

#[test]
fn query_does_without_title_class_and_path() {
    let api = LinuxPlatformApi {};
    let mut replies = complete();
    replies[8] = XReply::Failed;
    replies[9] = XReply::Failed;
    replies[10] = XReply::Failed;
    let window = api.get_active_window(&replies).unwrap();
    assert_eq!(window.title, "");
    assert_eq!(window.app_name, "");
    assert_eq!(window.process_path, "");
    assert_eq!(window.process_id, 4321);
    assert_eq!(window.window_id, "44040199");
    let mut garbled = complete();
    garbled[8] = XReply::Bytes(vec![0xff, 0xfe]);
    garbled[9] = XReply::Bytes(vec![0xc0]);
    let window = api.get_active_window(&garbled).unwrap();
    assert_eq!(window.title, "");
    assert_eq!(window.app_name, "");
    assert_eq!(window.process_path, "/usr/bin/editor");
}

#[test]
fn query_fails_on_an_empty_pid_property() {
    let api = LinuxPlatformApi {};
    let mut replies = complete();
    replies[5] = XReply::Items(vec![]);
    assert_eq!(api.get_active_window(&replies), Err(ActiveWindowError::GetActiveWindowFailed));
    assert_eq!(api.get_position(&replies), Err(ActiveWindowError::GetActiveWindowFailed));
    let mut query = XQuery::start();
    for reply in replies.iter().take(6) {
        query.advance(reply);
    }
    assert_eq!(query.stage, XStage::Failed);
    assert_eq!(query.request(), XRequest::Nothing);
    for reply in replies.iter().skip(6) {
        query.advance(reply);
    }
    assert_eq!(query.stage, XStage::Failed);
    assert!(query.finish().is_err());
}

#[test]
fn query_takes_the_first_pid_of_the_property() {
    let api = LinuxPlatformApi {};
    let mut replies = complete();
    replies[5] = XReply::Items(vec![17, 18]);
    assert_eq!(api.get_active_window(&replies).unwrap().process_id, 17);
    let mut query = XQuery::start();
    for reply in replies.iter().take(10) {
        query.advance(reply);
    }
    assert_eq!(query.request(), XRequest::Executable { pid: 17 });
}

#[test]
fn query_at_its_end_stays_there() {
    let mut replies = complete();
    replies.push(XReply::Failed);
    replies.push(XReply::Path("/other".to_string()));
    let window = LinuxPlatformApi {}.get_active_window(&replies).unwrap();
    assert_eq!(window.process_path, "/usr/bin/editor");
    let mut failed = vec![XReply::Failed];
    failed.extend(complete());
    assert!(LinuxPlatformApi {}.get_active_window(&failed).is_err());
}
