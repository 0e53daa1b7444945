use active_win_pos_rs::linux::executable::executable_link;
use active_win_pos_rs::linux::session_bus::{
    gnome_json, kwin_object_path, kwin_window_handle, parse_kwin_properties,
};
use active_win_pos_rs::linux::wayland::{
    find_focused_sway_node, get_active_window_wayland, try_gnome, try_hyprland, try_kwin,
    try_sway, GnomeWindow, HelperChain, HelperReply, HelperStage, HyprlandWindow, SwayNode,
    SwayRect, WaylandPlatformApi,
};
use active_win_pos_rs::{ActiveWindowError, PlatformApi, WindowPosition};

fn node(id: u64, focused: bool) -> SwayNode {
    SwayNode {
        name: None,
        app_id: None,
        pid: None,
        id: Some(id),
        focused,
        rect: None,
        nodes: Vec::new(),
        floating_nodes: Vec::new(),
    }
}

fn window_node(id: u64, focused: bool) -> SwayNode {
    SwayNode {
        name: Some("Editor".to_string()),
        app_id: Some("org.example.editor".to_string()),
        pid: Some(4321),
        id: Some(id),
        focused,
        rect: Some(SwayRect { x: 10, y: 20, width: 800, height: 600 }),
        nodes: Vec::new(),
        floating_nodes: Vec::new(),
    }
}

#[test]
fn focused_grandchild_under_floating_nodes_is_found() {
    let mut child = node(2, false);
    child.floating_nodes.push(node(3, true));
    let mut root = node(1, false);
    root.nodes.push(child);
    let found = find_focused_sway_node(&root).expect("a focused node");
    assert_eq!(found.id, Some(3));
    assert!(found.focused);
}

#[test]
fn focused_root_wins_over_its_children() {
    let mut root = node(1, true);
    root.nodes.push(node(2, true));
    assert_eq!(find_focused_sway_node(&root).unwrap().id, Some(1));
}

#[test]
fn tiled_children_are_searched_before_floating_ones() {
    let mut root = node(1, false);
    root.floating_nodes.push(node(2, true));
    let mut tiled = node(3, false);
    tiled.floating_nodes.push(node(4, true));
    root.nodes.push(node(5, false));
    root.nodes.push(tiled);
    assert_eq!(find_focused_sway_node(&root).unwrap().id, Some(4));
}

#[test]
fn first_focused_child_wins() {
    let mut root = node(1, false);
    root.nodes.push(node(2, false));
    root.nodes.push(node(3, true));
    root.nodes.push(node(4, true));
    assert_eq!(find_focused_sway_node(&root).unwrap().id, Some(3));
}

#[test]
fn no_focused_node_is_none() {
    let mut root = node(1, false);
    root.nodes.push(node(2, false));
    root.floating_nodes.push(node(3, false));
    assert!(find_focused_sway_node(&root).is_none());
}

#[test]
fn sway_record_is_read_from_the_focused_node() {
    let mut root = node(1, false);
    root.nodes.push(window_node(77, true));
    let window = try_sway(&root).expect("a window");
    assert_eq!(window.title, "Editor");
    assert_eq!(window.app_name, "org.example.editor");
    assert_eq!(window.window_id, "77");
    assert_eq!(window.process_id, 4321);
    assert_eq!(window.process_path, "");
    assert_eq!(window.position, WindowPosition { x: 10, y: 20, width: 800, height: 600 });
}

#[test]
fn sway_needs_pid_and_rect() {
    let mut without_pid = window_node(1, true);
    without_pid.pid = None;
    assert!(try_sway(&without_pid).is_none());
    let mut without_rect = window_node(1, true);
    without_rect.rect = None;
    assert!(try_sway(&without_rect).is_none());
    assert!(try_sway(&window_node(1, false)).is_none());
}

#[test]
fn sway_fills_missing_texts_with_nothing() {
    let mut bare = window_node(1, true);
    bare.name = None;
    bare.app_id = None;
    bare.id = None;
    bare.rect = Some(SwayRect { x: -5, y: -6, width: 1, height: 2 });
    let window = try_sway(&bare).unwrap();
    assert_eq!(window.title, "");
    assert_eq!(window.app_name, "");
    assert_eq!(window.window_id, "");
    assert_eq!(window.position, WindowPosition { x: -5, y: -6, width: 1, height: 2 });
}

fn hyprland(pid: i32, at: Vec<i32>, size: Vec<i32>) -> HyprlandWindow {
    HyprlandWindow {
        title: "Terminal".to_string(),
        class: "kitty".to_string(),
        pid,
        address: "0x55d1c0".to_string(),
        at,
        size,
    }
}

#[test]
fn hyprland_record_is_checked() {
    let window = try_hyprland(&hyprland(99, vec![1, 2], vec![300, 400])).unwrap();
    assert_eq!(window.title, "Terminal");
    assert_eq!(window.app_name, "kitty");
    assert_eq!(window.window_id, "0x55d1c0");
    assert_eq!(window.process_id, 99);
    assert_eq!(window.position, WindowPosition { x: 1, y: 2, width: 300, height: 400 });
    assert!(try_hyprland(&hyprland(0, vec![1, 2], vec![3, 4])).is_none());
    assert!(try_hyprland(&hyprland(-1, vec![1, 2], vec![3, 4])).is_none());
    assert!(try_hyprland(&hyprland(5, vec![1], vec![3, 4])).is_none());
    assert!(try_hyprland(&hyprland(5, vec![1, 2], vec![])).is_none());
    assert!(try_hyprland(&hyprland(5, vec![1, 2, 3], vec![3, 4, 5])).is_some());
}

fn gnome(pid: i32, id: u64) -> GnomeWindow {
    GnomeWindow {
        wm_class: "firefox".to_string(),
        pid,
        title: "Mozilla".to_string(),
        id,
        x: 3,
        y: 4,
        width: 500,
        height: 600,
    }
}

#[test]
fn gnome_takes_the_first_window() {
    let window = try_gnome(&vec![gnome(11, 1001), gnome(12, 1002)]).unwrap();
    assert_eq!(window.title, "Mozilla");
    assert_eq!(window.app_name, "firefox");
    assert_eq!(window.window_id, "1001");
    assert_eq!(window.process_id, 11);
    assert_eq!(window.position, WindowPosition { x: 3, y: 4, width: 500, height: 600 });
    assert!(try_gnome(&vec![]).is_none());
    assert!(try_gnome(&vec![gnome(0, 1), gnome(12, 2)]).is_none());
    assert!(try_gnome(&vec![gnome(-3, 1)]).is_none());
}

#[test]
fn gnome_wrapper_is_taken_off() {
    assert_eq!(gnome_json(b"(<'[{\"pid\": 1}]'>,)\n").unwrap(), "[{\"pid\": 1}]");
    assert_eq!(gnome_json(b"('[{\"pid\": 1}]',)\n").unwrap(), "[{\"pid\": 1}]");
    assert_eq!(gnome_json(b"  [1, 2]  ").unwrap(), "[1, 2]");
    assert_eq!(gnome_json(b"('[{\"title\": \"it\\'s\"}]',)").unwrap(), "[{\"title\": \"it's\"}]");
    assert_eq!(gnome_json(b"(<'[]").unwrap(), "(<'[]");
    assert_eq!(gnome_json(b"(<'[]',)").unwrap(), "[]");
    assert_eq!(gnome_json(b"('[]'>,)").unwrap(), "[]");
    assert_eq!(gnome_json(b"").unwrap(), "");
    assert!(gnome_json(&[0xff]).is_none());
}

const LISTING: &str = "method return time=1.5 sender=:1.2 -> destination=:1.9 serial=7 reply_serial=2
   array [
      dict entry(
         string \"caption\"
         variant             string \"notes.txt - Editor\"
      )
      dict entry(
         string \"resourceClass\"
         variant             string \"editor\"
      )
      dict entry(
         string \"pid\"
         variant             int32 4242
      )
   ]
";

fn chars(text: &str) -> Vec<char> {
    text.chars().collect()
}

#[test]
fn kwin_listing_with_values_on_following_lines_gives_the_markers() {
    let found = parse_kwin_properties(&chars(LISTING));
    assert_eq!(found.title, "caption");
    assert_eq!(found.app_name, "resourceClass");
    assert_eq!(found.pid, 0);
}

#[test]
fn kwin_listing_on_single_lines_is_read() {
    let listing = "string \"caption\" variant string x\n  \"title\" \"My Window\" \n\
        resourceName \"\" \n resourceClass: \"app\" tail\n \"pid\" int32 0042\r\n \"pid\" 7\n";
    let found = parse_kwin_properties(&chars(listing));
    assert_eq!(found.title, "caption");
    assert_eq!(found.app_name, "app");
    assert_eq!(found.pid, 42);
}

#[test]
fn kwin_listing_skips_lines_without_a_value() {
    let listing = "caption\ncaption \"\" x\ncaption = \"Real\"\n\"pid\" abc\n\"pid\"\n\"pid\": 9\n";
    let found = parse_kwin_properties(&chars(listing));
    assert_eq!(found.title, "Real");
    assert_eq!(found.app_name, "");
    assert_eq!(found.pid, 9);
    let nothing = parse_kwin_properties(&chars(""));
    assert_eq!(nothing.title, "");
    assert_eq!(nothing.app_name, "");
    assert_eq!(nothing.pid, 0);
}

#[test]
fn kwin_handle_is_trimmed() {
    assert_eq!(kwin_window_handle(b" 1_2_3\n").unwrap(), "1_2_3");
    assert!(kwin_window_handle(b" \n").is_none());
    assert!(kwin_window_handle(b"").is_none());
    assert!(kwin_window_handle(&[b'a', 0x80]).is_none());
}

#[test]
fn kwin_object_path_turns_underscores_into_slashes() {
    assert_eq!(kwin_object_path("org_kde_KWin_Window_5"), "/org/kde/KWin/Window/5");
    assert_eq!(kwin_object_path("w"), "/w");
    assert_eq!(kwin_object_path(""), "/");
}

#[test]
fn kwin_record_needs_a_pid() {
    let listing = b"caption \"Title\"\nresourceName \"name\"\n\"pid\" uint32 31\n";
    let window = try_kwin("handle_1", listing).unwrap();
    assert_eq!(window.title, "Title");
    assert_eq!(window.app_name, "name");
    assert_eq!(window.window_id, "handle_1");
    assert_eq!(window.process_id, 31);
    assert_eq!(window.process_path, "");
    assert_eq!(window.position, WindowPosition::default());
    assert!(try_kwin("h", b"caption \"Title\"\n").is_none());
    assert!(try_kwin("h", b"\"pid\" 0\n\"pid\" 5\n").is_none());
    assert!(try_kwin("h", &[0xff, b'\n']).is_none());
}

#[test]
fn executable_link_names_the_process() {
    assert_eq!(executable_link(1), "/proc/1/exe");
    assert_eq!(executable_link(4321), "/proc/4321/exe");
    assert_eq!(executable_link(0), "/proc/0/exe");
}

fn words(line: &[&str]) -> Vec<String> {
    line.iter().map(|w| w.to_string()).collect()
}

#[test]
fn chain_asks_each_helper_in_turn() {
    let mut chain = HelperChain::start();
    assert_eq!(chain.stage, HelperStage::RunSway);
    assert_eq!(chain.command(), words(&["swaymsg", "-t", "get_tree"]));
    chain.advance(&HelperReply::Failed);
    assert_eq!(chain.stage, HelperStage::RunHyprland);
    assert_eq!(chain.command(), words(&["hyprctl", "activewindow", "-j"]));
    chain.advance(&HelperReply::Failed);
    assert_eq!(chain.stage, HelperStage::RunKwinHandle);
    assert_eq!(
        chain.command(),
        words(&["qdbus", "org.kde.KWin", "/KWin", "org.kde.KWin.activeWindow"])
    );
    chain.advance(&HelperReply::Output(b"win_7\n".to_vec()));
    assert_eq!(chain.stage, HelperStage::RunKwinProperties);
    assert_eq!(
        chain.command(),
        words(&[
            "dbus-send",
            "--session",
            "--print-reply",
            "--dest=org.kde.KWin",
            "/win/7",
            "org.freedesktop.DBus.Properties.GetAll",
            "string:org.kde.KWin.Window",
        ])
    );
    chain.advance(&HelperReply::Output(b"nothing of use".to_vec()));
    assert_eq!(chain.stage, HelperStage::RunGnome);
    assert_eq!(
        chain.command(),
        words(&[
            "gdbus",
            "call",
            "--session",
            "--dest",
            "org.gnome.Shell",
            "--object-path",
            "/org/gnome/Shell/Extensions/Windows",
            "--method",
            "org.gnome.Shell.Extensions.Windows.List",
        ])
    );
    chain.advance(&HelperReply::Failed);
    assert_eq!(chain.stage, HelperStage::NotFound);
    assert_eq!(chain.command(), Vec::<String>::new());
    assert_eq!(chain.finish(), Err(ActiveWindowError::GetActiveWindowFailed));
}

#[test]
fn chain_fails_when_every_helper_fails() {
    let failures = vec![
        HelperReply::Failed,
        HelperReply::Failed,
        HelperReply::Failed,
        HelperReply::Failed,
    ];
    assert!(get_active_window_wayland(&failures).is_none());
    let api = WaylandPlatformApi {};
    assert_eq!(api.get_active_window(&failures), Err(ActiveWindowError::GetActiveWindowFailed));
    assert_eq!(api.get_position(&failures), Err(ActiveWindowError::GetActiveWindowFailed));
    assert!(get_active_window_wayland(&Vec::new()).is_none());
    let mut more = failures;
    more.push(HelperReply::Failed);
    more.push(HelperReply::Executable("/bin/late".to_string()));
    assert!(get_active_window_wayland(&more).is_none());
}

#[test]
fn chain_stops_at_the_first_helper_that_finds_a_window() {
    let mut root = node(1, false);
    root.nodes.push(window_node(77, true));
    let replies = vec![
        HelperReply::Output(b"{}".to_vec()),
        HelperReply::SwayTree(root),
        HelperReply::Executable("/usr/bin/editor".to_string()),
    ];
    let window = get_active_window_wayland(&replies).expect("a window");
    assert_eq!(window.title, "Editor");
    assert_eq!(window.process_id, 4321);
    assert_eq!(window.process_path, "/usr/bin/editor");
    let api = WaylandPlatformApi {};
    assert_eq!(api.get_position(&replies), Ok(window.position));
    assert_eq!(api.get_active_window(&replies).unwrap().position, window.position);
}

#[test]
fn chain_hands_the_output_on_as_payload_and_asks_for_the_link() {
    let mut chain = HelperChain::start();
    chain.advance(&HelperReply::Output(b"{\"focused\": true}".to_vec()));
    assert_eq!(chain.stage, HelperStage::DecodeSway);
    assert_eq!(chain.payload, b"{\"focused\": true}".to_vec());
    chain.advance(&HelperReply::SwayTree(window_node(5, true)));
    assert_eq!(chain.stage, HelperStage::ResolveExecutable);
    assert_eq!(chain.link(), "/proc/4321/exe");
    chain.advance(&HelperReply::Failed);
    assert_eq!(chain.stage, HelperStage::Found);
    let window = chain.finish().unwrap();
    assert_eq!(window.process_path, "");
    assert_eq!(window.window_id, "5");
}

#[test]
fn chain_falls_through_to_later_helpers() {
    let replies = vec![
        HelperReply::Output(b"{}".to_vec()),
        HelperReply::SwayTree(node(1, false)),
        HelperReply::Output(b"{}".to_vec()),
        HelperReply::HyprlandWindow(hyprland(0, vec![], vec![])),
        HelperReply::Output(b"\n".to_vec()),
        HelperReply::Output(b"(<'[{\"pid\": 11}]'>,)\n".to_vec()),
        HelperReply::GnomeWindows(vec![gnome(11, 1001)]),
        HelperReply::Executable("/usr/bin/firefox".to_string()),
    ];
    let mut chain = HelperChain::start();
    let expected = [
        HelperStage::DecodeSway,
        HelperStage::RunHyprland,
        HelperStage::DecodeHyprland,
        HelperStage::RunKwinHandle,
        HelperStage::RunGnome,
        HelperStage::DecodeGnome,
        HelperStage::ResolveExecutable,
        HelperStage::Found,
    ];
    for (reply, stage) in replies.iter().zip(expected.iter()) {
        chain.advance(reply);
        assert_eq!(chain.stage, *stage);
        if *stage == HelperStage::DecodeGnome {
            assert_eq!(chain.payload, b"[{\"pid\": 11}]".to_vec());
        }
    }
    let window = get_active_window_wayland(&replies).unwrap();
    assert_eq!(window.app_name, "firefox");
    assert_eq!(window.window_id, "1001");
    assert_eq!(window.process_path, "/usr/bin/firefox");
}

#[test]
fn chain_treats_an_unexpected_reply_as_failure() {
    let mut chain = HelperChain::start();
    chain.advance(&HelperReply::SwayTree(window_node(5, true)));
    assert_eq!(chain.stage, HelperStage::RunHyprland);
    chain.advance(&HelperReply::Output(b"{}".to_vec()));
    chain.advance(&HelperReply::GnomeWindows(vec![gnome(11, 1)]));
    assert_eq!(chain.stage, HelperStage::RunKwinHandle);
}

#[test]
fn chain_through_the_window_manager() {
    let replies = vec![
        HelperReply::Failed,
        HelperReply::Failed,
        HelperReply::Output(b"w_1\n".to_vec()),
        HelperReply::Output(b"\"caption\" \"T\"\n\"resourceClass\" \"c\"\n\"pid\" 8\n".to_vec()),
        HelperReply::Failed,
    ];
    let window = get_active_window_wayland(&replies).unwrap();
    assert_eq!(window.title, "caption");
    assert_eq!(window.app_name, "resourceClass");
    assert_eq!(window.window_id, "w_1");
    assert_eq!(window.process_id, 8);
    assert_eq!(window.position, WindowPosition::default());
    assert!(get_active_window_wayland(&replies[..4].to_vec_replies()).is_none());
}

trait ToReplies {
    fn to_vec_replies(&self) -> Vec<HelperReply>;
}

impl ToReplies for [HelperReply] {
    fn to_vec_replies(&self) -> Vec<HelperReply> {
        self.iter()
            .map(|reply| match reply {
                HelperReply::Failed => HelperReply::Failed,
                HelperReply::Output(bytes) => HelperReply::Output(bytes.clone()),
                HelperReply::Executable(path) => HelperReply::Executable(path.clone()),
                _ => HelperReply::Failed,
            })
            .collect()
    }
}

#[test]
fn each_helper_is_followed_by_the_next() {
    assert_eq!(HelperStage::RunSway.next_helper(), HelperStage::RunHyprland);
    assert_eq!(HelperStage::DecodeSway.next_helper(), HelperStage::RunHyprland);
    assert_eq!(HelperStage::RunHyprland.next_helper(), HelperStage::RunKwinHandle);
    assert_eq!(HelperStage::DecodeHyprland.next_helper(), HelperStage::RunKwinHandle);
    assert_eq!(HelperStage::RunKwinHandle.next_helper(), HelperStage::RunGnome);
    assert_eq!(HelperStage::RunKwinProperties.next_helper(), HelperStage::RunGnome);
    assert_eq!(HelperStage::RunGnome.next_helper(), HelperStage::NotFound);
    assert_eq!(HelperStage::DecodeGnome.next_helper(), HelperStage::NotFound);
    assert_eq!(HelperStage::ResolveExecutable.next_helper(), HelperStage::Found);
    assert_eq!(HelperStage::Found.next_helper(), HelperStage::Found);
    assert_eq!(HelperStage::NotFound.next_helper(), HelperStage::NotFound);
}
