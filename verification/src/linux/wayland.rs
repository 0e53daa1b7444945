//! Compositors without a common protocol, each asked through its own helper tool.
//!
//! The helpers are tried in a fixed order and the first one that yields a
//! window wins. What a helper printed is decoded outside this library; the
//! rules for reading the decoded answers, and the order, are here.

use super::executable::{executable_link, executable_link_path};
use super::session_bus::{
    gnome_json, gnome_payload, kwin_handle, kwin_object_path, kwin_path, kwin_properties,
    kwin_window_handle, parse_kwin_properties,
};
use crate::common::active_window::{viewed_option, ActiveWindow, ActiveWindowView};
use crate::common::active_window_error::ActiveWindowError;
use crate::common::platform_api::{position_of, viewed, PlatformApi};
use crate::common::window_position::WindowPosition;
use crate::text::chars::{chars_of_utf8, from_chars, utf8_text};
use crate::text::number::{decimal, decimal_chars};
use vstd::prelude::*;
use vstd::slice::slice_to_vec;
use vstd::utf8::encode_utf8;

verus! {

/// The rectangle of a node in the tree of a tiling compositor.
#[derive(Debug, Clone, Copy, PartialEq, Eq, Structural)]
pub struct SwayRect {
    pub x: i32,
    pub y: i32,
    pub width: i32,
    pub height: i32,
}

/// A node of the window tree that a tiling compositor dumps: an output, a
/// workspace, a container or a window. Fields that the dump leaves out are
/// `None`, `false` or empty.
#[derive(Debug)]
pub struct SwayNode {
    pub name: Option<String>,
    pub app_id: Option<String>,
    pub pid: Option<u32>,
    pub id: Option<u64>,
    pub focused: bool,
    pub rect: Option<SwayRect>,
    pub nodes: Vec<SwayNode>,
    pub floating_nodes: Vec<SwayNode>,
}

/// The nodes of a tree in the order in which the search visits them: the
/// node itself, then everything below its tiled children, then everything
/// below its floating children.
pub open spec fn preorder(node: SwayNode) -> Seq<SwayNode>
    decreases node, 1int,
{
    seq![node] + preorder_all(node.nodes@) + preorder_all(node.floating_nodes@)
}

/// The nodes of several trees, one tree after the other.
pub open spec fn preorder_all(trees: Seq<SwayNode>) -> Seq<SwayNode>
    decreases trees, 0int,
{
    if trees.len() == 0 {
        Seq::<SwayNode>::empty()
    } else {
        preorder_all(trees.drop_last()) + preorder(trees.last())
    }
}

/// The first node of the list that is marked as focused.
pub open spec fn first_focused(nodes: Seq<SwayNode>) -> Option<SwayNode>
    decreases nodes.len(),
{
    if nodes.len() == 0 {
        None
    } else if nodes[0].focused {
        Some(nodes[0])
    } else {
        first_focused(nodes.drop_first())
    }
}

/// The node of the tree that has focus: the first focused one that the
/// search visits.
pub open spec fn focused_node(tree: SwayNode) -> Option<SwayNode> {
    first_focused(preorder(tree))
}

/// An optional reference taken as the value it points to.
pub open spec fn pointee(found: Option<&SwayNode>) -> Option<SwayNode> {
    match found {
        Some(node) => Some(*node),
        None => None,
    }
}

/// The first focused node of two lists, one after the other, is the first
/// focused node of the first list if it has one, and else that of the second.
pub proof fn lemma_first_focused_concat(a: Seq<SwayNode>, b: Seq<SwayNode>)
    ensures
        first_focused(a + b) == match first_focused(a) {
            Some(node) => Some(node),
            None => first_focused(b),
        },
    decreases a.len(),
{
    if a.len() == 0 {
        assert(a + b == b);
    } else {
        assert((a + b).drop_first() == a.drop_first() + b);
        lemma_first_focused_concat(a.drop_first(), b);
    }
}

/// What the search finds is marked as focused and is a node of the tree.
pub proof fn lemma_first_focused_is_focused(nodes: Seq<SwayNode>)
    ensures
        first_focused(nodes) matches Some(node) ==> node.focused && nodes.contains(node),
        first_focused(nodes) is None <==> forall|i: int|
            0 <= i < nodes.len() ==> !(#[trigger] nodes[i]).focused,
    decreases nodes.len(),
{
    if nodes.len() > 0 {
        lemma_first_focused_is_focused(nodes.drop_first());
        if nodes[0].focused {
        } else {
            let rest = nodes.drop_first();
            if first_focused(rest) is Some {
                let node = first_focused(rest)->0;
                let i = choose|i: int| 0 <= i < rest.len() && rest[i] == node;
                assert(nodes[i + 1] == node);
                assert(!(forall|i: int| 0 <= i < nodes.len() ==> !(#[trigger] nodes[i]).focused));
            } else {
                assert forall|i: int| 0 <= i < nodes.len() implies !(#[trigger] nodes[i]).focused by {
                    if i > 0 {
                        assert(rest[i - 1] == nodes[i]);
                    }
                }
            }
        }
    }
}

/// Searches several trees in order.
fn find_focused_among(trees: &Vec<SwayNode>) -> (found: Option<&SwayNode>)
    ensures
        pointee(found) == first_focused(preorder_all(trees@)),
    decreases trees, 0int,
{
    let mut i: usize = 0;
    assert(trees@.take(0) == Seq::<SwayNode>::empty());
    while i < trees.len()
        invariant
            i <= trees.len(),
            first_focused(preorder_all(trees@.take(i as int))) is None,
        decreases trees.len() - i,
    {
        let ghost head = trees@.take(i as int);
        let ghost next = trees@.take(i + 1);
        assert(next.drop_last() == head);
        assert(next.last() == trees@[i as int]);
        proof {
            lemma_first_focused_concat(preorder_all(head), preorder(trees@[i as int]));
        }
        let found = find_focused_sway_node(&trees[i]);
        if found.is_some() {
            proof {
                lemma_found_in_prefix(trees@, i + 1);
            }
            return found;
        }
        i += 1;
    }
    assert(trees@.take(trees.len() as int) == trees@);
    None
}

/// A focused node among the first trees is the focused node among all.
proof fn lemma_found_in_prefix(trees: Seq<SwayNode>, n: int)
    requires
        0 <= n <= trees.len(),
        first_focused(preorder_all(trees.take(n))) is Some,
    ensures
        first_focused(preorder_all(trees)) == first_focused(preorder_all(trees.take(n))),
    decreases trees.len(),
{
    if n == trees.len() {
        assert(trees.take(n) == trees);
    } else {
        assert(trees.drop_last().take(n) == trees.take(n));
        lemma_found_in_prefix(trees.drop_last(), n);
        lemma_first_focused_concat(preorder_all(trees.drop_last()), preorder(trees.last()));
    }
}

/// Finds the node that has focus: the node itself if it is marked, else the
/// first marked node below its tiled children, else the first below its
/// floating children.
pub fn find_focused_sway_node(node: &SwayNode) -> (found: Option<&SwayNode>)
    ensures
        pointee(found) == focused_node(*node),
        found matches Some(n) ==> n.focused,
    decreases node, 1int,
{
    proof {
        let tiled = preorder_all(node.nodes@);
        let floating = preorder_all(node.floating_nodes@);
        assert(preorder(*node) == seq![*node] + (tiled + floating));
        assert((seq![*node] + (tiled + floating)).drop_first() == tiled + floating);
        lemma_first_focused_concat(tiled, floating);
        lemma_first_focused_is_focused(preorder(*node));
    }
    if node.focused {
        return Some(node);
    }
    let tiled = find_focused_among(&node.nodes);
    if tiled.is_some() {
        return tiled;
    }
    find_focused_among(&node.floating_nodes)
}

/// The text, or the empty text where there is none.
pub open spec fn text_or_empty(text: Option<String>) -> Seq<char> {
    match text {
        Some(t) => t@,
        None => Seq::<char>::empty(),
    }
}

/// Copies an optional text, putting the empty text where there is none.
fn copy_or_empty(text: &Option<String>) -> (copy: String)
    ensures
        copy@ == text_or_empty(*text),
{
    match text {
        Some(t) => t.clone(),
        None => String::new(),
    }
}

/// The record that a tree dump describes, without the executable's path: the
/// focused node must exist and carry a process id and a rectangle. Name and
/// application id are empty where the node has none, and the window
/// identifier is the node's id in decimal, or empty.
pub open spec fn sway_window(tree: SwayNode) -> Option<ActiveWindowView> {
    match focused_node(tree) {
        Some(node) => if node.pid is Some && node.rect is Some {
            Some(
                ActiveWindowView {
                    title: text_or_empty(node.name),
                    process_path: Seq::<char>::empty(),
                    app_name: text_or_empty(node.app_id),
                    window_id: match node.id {
                        Some(id) => decimal(id as nat),
                        None => Seq::<char>::empty(),
                    },
                    process_id: node.pid->0 as u64,
                    position: WindowPosition {
                        x: node.rect->0.x as i64,
                        y: node.rect->0.y as i64,
                        width: node.rect->0.width as i64,
                        height: node.rect->0.height as i64,
                    },
                },
            )
        } else {
            None
        },
        None => None,
    }
}

/// The tree strategy: reads the focused window out of a compositor's tree
/// dump. The executable's path is left empty.
pub fn try_sway(tree: &SwayNode) -> (window: Option<ActiveWindow>)
    ensures
        viewed_option(window) == sway_window(*tree),
{
    let focused = match find_focused_sway_node(tree) {
        Some(node) => node,
        None => { return None; },
    };
    let pid = match focused.pid {
        Some(pid) => pid,
        None => { return None; },
    };
    let rect = match focused.rect {
        Some(rect) => rect,
        None => { return None; },
    };
    let window_id = match focused.id {
        Some(id) => from_chars(&decimal_chars(id)),
        None => String::new(),
    };
    Some(
        ActiveWindow {
            title: copy_or_empty(&focused.name),
            process_path: String::new(),
            app_name: copy_or_empty(&focused.app_id),
            window_id,
            process_id: pid as u64,
            position: WindowPosition::new(
                rect.x as i64,
                rect.y as i64,
                rect.width as i64,
                rect.height as i64,
            ),
        },
    )
}

/// The one active window as a compositor reports it on request. Fields that
/// the report leaves out are empty or zero.
#[derive(Debug)]
pub struct HyprlandWindow {
    pub title: String,
    pub class: String,
    pub pid: i32,
    pub address: String,
    pub at: Vec<i32>,
    pub size: Vec<i32>,
}

/// The record that a single-window report describes, without the
/// executable's path: the process id must be positive, and position and size
/// must each have two numbers at least.
pub open spec fn hyprland_window(report: HyprlandWindow) -> Option<ActiveWindowView> {
    if report.pid > 0 && report.at@.len() >= 2 && report.size@.len() >= 2 {
        Some(
            ActiveWindowView {
                title: report.title@,
                process_path: Seq::<char>::empty(),
                app_name: report.class@,
                window_id: report.address@,
                process_id: report.pid as u64,
                position: WindowPosition {
                    x: report.at@[0] as i64,
                    y: report.at@[1] as i64,
                    width: report.size@[0] as i64,
                    height: report.size@[1] as i64,
                },
            },
        )
    } else {
        None
    }
}

/// The single-window strategy: checks a compositor's report of its active
/// window. The executable's path is left empty.
pub fn try_hyprland(report: &HyprlandWindow) -> (window: Option<ActiveWindow>)
    ensures
        viewed_option(window) == hyprland_window(*report),
{
    if report.pid <= 0 || report.at.len() < 2 || report.size.len() < 2 {
        return None;
    }
    Some(
        ActiveWindow {
            title: report.title.clone(),
            process_path: String::new(),
            app_name: report.class.clone(),
            window_id: report.address.clone(),
            process_id: report.pid as u64,
            position: WindowPosition::new(
                report.at[0] as i64,
                report.at[1] as i64,
                report.size[0] as i64,
                report.size[1] as i64,
            ),
        },
    )
}

/// One window of the list that a desktop shell's extension returns. Fields
/// that the list leaves out are empty or zero.
#[derive(Debug)]
pub struct GnomeWindow {
    pub wm_class: String,
    pub pid: i32,
    pub title: String,
    pub id: u64,
    pub x: i32,
    pub y: i32,
    pub width: i32,
    pub height: i32,
}

/// The record that a window list describes, without the executable's path:
/// the first window of the list, taken to be the focused one, if its process
/// id is positive.
pub open spec fn gnome_window(windows: Seq<GnomeWindow>) -> Option<ActiveWindowView> {
    if windows.len() > 0 && windows[0].pid > 0 {
        Some(
            ActiveWindowView {
                title: windows[0].title@,
                process_path: Seq::<char>::empty(),
                app_name: windows[0].wm_class@,
                window_id: decimal(windows[0].id as nat),
                process_id: windows[0].pid as u64,
                position: WindowPosition {
                    x: windows[0].x as i64,
                    y: windows[0].y as i64,
                    width: windows[0].width as i64,
                    height: windows[0].height as i64,
                },
            },
        )
    } else {
        None
    }
}

/// The window-list strategy: takes the first listed window as the focused
/// one. The executable's path is left empty.
pub fn try_gnome(windows: &Vec<GnomeWindow>) -> (window: Option<ActiveWindow>)
    ensures
        viewed_option(window) == gnome_window(windows@),
{
    if windows.len() == 0 {
        return None;
    }
    let first = &windows[0];
    if first.pid <= 0 {
        return None;
    }
    Some(
        ActiveWindow {
            title: first.title.clone(),
            process_path: String::new(),
            app_name: first.wm_class.clone(),
            window_id: from_chars(&decimal_chars(first.id)),
            process_id: first.pid as u64,
            position: WindowPosition::new(
                first.x as i64,
                first.y as i64,
                first.width as i64,
                first.height as i64,
            ),
        },
    )
}

/// The record that a window manager's two replies describe, without the
/// executable's path: the property listing must be well-formed UTF-8 and
/// hold a process id other than 0. The handle is the window identifier, and
/// the geometry, which the listing does not give, is the zero rectangle.
pub open spec fn kwin_window(handle: Seq<char>, listing: Seq<u8>) -> Option<ActiveWindowView> {
    match utf8_text(listing) {
        Some(text) => if kwin_properties(text).2 != 0 {
            Some(
                ActiveWindowView {
                    title: kwin_properties(text).0,
                    process_path: Seq::<char>::empty(),
                    app_name: kwin_properties(text).1,
                    window_id: handle,
                    process_id: kwin_properties(text).2 as u64,
                    position: WindowPosition::zero(),
                },
            )
        } else {
            None
        },
        None => None,
    }
}

/// The first session bus strategy: scans the property listing of the window
/// whose handle the window manager gave. The executable's path is left
/// empty.
pub fn try_kwin(handle: &str, listing: &[u8]) -> (window: Option<ActiveWindow>)
    ensures
        viewed_option(window) == kwin_window(handle@, listing@),
{
    let text = match chars_of_utf8(listing) {
        Some(text) => text,
        None => { return None; },
    };
    let found = parse_kwin_properties(&text);
    if found.pid == 0 {
        return None;
    }
    Some(
        ActiveWindow {
            title: found.title,
            process_path: String::new(),
            app_name: found.app_name,
            window_id: handle.to_owned(),
            process_id: found.pid as u64,
            position: WindowPosition::new(0, 0, 0, 0),
        },
    )
}

/// Where the chain of helpers stands, which is also what has to be done
/// next.
#[derive(Debug, Clone, Copy, PartialEq, Eq, Structural)]
pub enum HelperStage {
    /// Run the helper that dumps the window tree.
    RunSway,
    /// Decode the dumped tree, which is the payload.
    DecodeSway,
    /// Run the helper that reports the active window.
    RunHyprland,
    /// Decode the report, which is the payload.
    DecodeHyprland,
    /// Run the helper that gives the active window's handle.
    RunKwinHandle,
    /// Run the helper that lists the properties of the window.
    RunKwinProperties,
    /// Run the helper that lists the windows of the shell.
    RunGnome,
    /// Decode the window list, which is the payload.
    DecodeGnome,
    /// Read the link to the executable of the candidate's process.
    ResolveExecutable,
    /// The candidate is the active window.
    Found,
    /// Every helper was tried and none gave a window.
    NotFound,
}

/// What came of the step that a stage asked for.
#[derive(Debug)]
pub enum HelperReply {
    /// The helper is missing, did not run, ended in failure, or what it
    /// printed could not be decoded; or the link could not be read.
    Failed,
    /// What a helper printed.
    Output(Vec<u8>),
    /// A decoded window tree.
    SwayTree(SwayNode),
    /// A decoded report of the active window.
    HyprlandWindow(HyprlandWindow),
    /// A decoded list of windows.
    GnomeWindows(Vec<GnomeWindow>),
    /// The target of the link to an executable.
    Executable(String),
}

/// The chain of helpers: a window is sought from each in turn, and the first
/// that yields one wins.
#[derive(Debug)]
pub struct HelperChain {
    /// What has to be done next.
    pub stage: HelperStage,
    /// The bytes to decode at a decoding stage.
    pub payload: Vec<u8>,
    /// The handle of the window whose properties are asked for.
    pub handle: String,
    /// The window that was found, as far as it is known.
    pub candidate: ActiveWindow,
}

/// What a [`HelperChain`] holds, with texts and bytes as sequences.
pub struct HelperChainView {
    pub stage: HelperStage,
    pub payload: Seq<u8>,
    pub handle: Seq<char>,
    pub candidate: ActiveWindowView,
}

impl View for HelperChain {
    type V = HelperChainView;

    open spec fn view(&self) -> HelperChainView {
        HelperChainView {
            stage: self.stage,
            payload: self.payload@,
            handle: self.handle@,
            candidate: self.candidate@,
        }
    }
}

/// The record with empty texts, process 0 and the zero rectangle.
pub open spec fn empty_window() -> ActiveWindowView {
    ActiveWindowView {
        title: Seq::<char>::empty(),
        process_path: Seq::<char>::empty(),
        app_name: Seq::<char>::empty(),
        window_id: Seq::<char>::empty(),
        process_id: 0,
        position: WindowPosition::zero(),
    }
}

impl HelperStage {
    /// The stage at which the next helper's turn begins, once the helper of
    /// this stage has yielded nothing.
    pub open spec fn after_failure(self) -> HelperStage {
        match self {
            HelperStage::RunSway | HelperStage::DecodeSway => HelperStage::RunHyprland,
            HelperStage::RunHyprland | HelperStage::DecodeHyprland => HelperStage::RunKwinHandle,
            HelperStage::RunKwinHandle | HelperStage::RunKwinProperties => HelperStage::RunGnome,
            HelperStage::RunGnome | HelperStage::DecodeGnome => HelperStage::NotFound,
            HelperStage::ResolveExecutable | HelperStage::Found => HelperStage::Found,
            HelperStage::NotFound => HelperStage::NotFound,
        }
    }

    /// Whether the chain has come to its end.
    pub open spec fn is_final(self) -> bool {
        self == HelperStage::Found || self == HelperStage::NotFound
    }

    /// The stage at which the next helper's turn begins.
    pub fn next_helper(self) -> (stage: HelperStage)
        ensures
            stage == self.after_failure(),
    {
        match self {
            HelperStage::RunSway | HelperStage::DecodeSway => HelperStage::RunHyprland,
            HelperStage::RunHyprland | HelperStage::DecodeHyprland => HelperStage::RunKwinHandle,
            HelperStage::RunKwinHandle | HelperStage::RunKwinProperties => HelperStage::RunGnome,
            HelperStage::RunGnome | HelperStage::DecodeGnome => HelperStage::NotFound,
            HelperStage::ResolveExecutable | HelperStage::Found => HelperStage::Found,
            HelperStage::NotFound => HelperStage::NotFound,
        }
    }

    /// The program to run at this stage and its arguments, for a window
    /// with the given handle. Empty for a stage that runs nothing.
    pub open spec fn command_line(self, handle: Seq<char>) -> Seq<Seq<char>> {
        match self {
            HelperStage::RunSway => seq!["swaymsg"@, "-t"@, "get_tree"@],
            HelperStage::RunHyprland => seq!["hyprctl"@, "activewindow"@, "-j"@],
            HelperStage::RunKwinHandle => seq![
                "qdbus"@,
                "org.kde.KWin"@,
                "/KWin"@,
                "org.kde.KWin.activeWindow"@,
            ],
            HelperStage::RunKwinProperties => seq![
                "dbus-send"@,
                "--session"@,
                "--print-reply"@,
                "--dest=org.kde.KWin"@,
                kwin_path(handle),
                "org.freedesktop.DBus.Properties.GetAll"@,
                "string:org.kde.KWin.Window"@,
            ],
            HelperStage::RunGnome => seq![
                "gdbus"@,
                "call"@,
                "--session"@,
                "--dest"@,
                "org.gnome.Shell"@,
                "--object-path"@,
                "/org/gnome/Shell/Extensions/Windows"@,
                "--method"@,
                "org.gnome.Shell.Extensions.Windows.List"@,
            ],
            _ => Seq::<Seq<char>>::empty(),
        }
    }
}

/// The view of a list of strings: the list of their character sequences.
pub open spec fn strings(list: Seq<String>) -> Seq<Seq<char>> {
    list.map_values(|text: String| text@)
}

impl HelperChainView {
    /// The chain after the step of its stage has yielded nothing: the next
    /// helper's turn begins.
    pub open spec fn give_up(self) -> HelperChainView {
        HelperChainView { stage: self.stage.after_failure(), ..self }
    }

    /// The chain once a helper has yielded a window, or has not.
    pub open spec fn settle(self, window: Option<ActiveWindowView>) -> HelperChainView {
        match window {
            Some(found) => HelperChainView {
                stage: HelperStage::ResolveExecutable,
                candidate: found,
                ..self
            },
            None => self.give_up(),
        }
    }

    /// The chain after the reply to the step that its stage asked for.
    ///
    /// A helper's output is handed on to be decoded, or read at once where
    /// it is plain text; a decoded answer is checked by its strategy; a
    /// window that passes waits for the path of its executable, which stays
    /// empty where the link cannot be read. Any reply that the stage did not
    /// ask for counts as a failure of the helper.
    pub open spec fn next(self, reply: HelperReply) -> HelperChainView {
        match (self.stage, reply) {
            (HelperStage::RunSway, HelperReply::Output(bytes)) => HelperChainView {
                stage: HelperStage::DecodeSway,
                payload: bytes@,
                ..self
            },
            (HelperStage::DecodeSway, HelperReply::SwayTree(tree)) => self.settle(sway_window(tree)),
            (HelperStage::RunHyprland, HelperReply::Output(bytes)) => HelperChainView {
                stage: HelperStage::DecodeHyprland,
                payload: bytes@,
                ..self
            },
            (HelperStage::DecodeHyprland, HelperReply::HyprlandWindow(report)) => self.settle(
                hyprland_window(report),
            ),
            (HelperStage::RunKwinHandle, HelperReply::Output(bytes)) => match kwin_handle(bytes@) {
                Some(handle) => HelperChainView { stage: HelperStage::RunKwinProperties, handle, ..self },
                None => self.give_up(),
            },
            (HelperStage::RunKwinProperties, HelperReply::Output(bytes)) => self.settle(
                kwin_window(self.handle, bytes@),
            ),
            (HelperStage::RunGnome, HelperReply::Output(bytes)) => match utf8_text(bytes@) {
                Some(text) => HelperChainView {
                    stage: HelperStage::DecodeGnome,
                    payload: encode_utf8(gnome_payload(text)),
                    ..self
                },
                None => self.give_up(),
            },
            (HelperStage::DecodeGnome, HelperReply::GnomeWindows(windows)) => self.settle(
                gnome_window(windows@),
            ),
            (HelperStage::ResolveExecutable, HelperReply::Executable(path)) => HelperChainView {
                stage: HelperStage::Found,
                candidate: ActiveWindowView { process_path: path@, ..self.candidate },
                ..self
            },
            _ => self.give_up(),
        }
    }

    /// The chain after a run of replies, each to the step that the chain
    /// asked for at that point.
    pub open spec fn run(self, replies: Seq<HelperReply>) -> HelperChainView
        decreases replies.len(),
    {
        if replies.len() == 0 {
            self
        } else {
            self.run(replies.drop_last()).next(replies.last())
        }
    }

    /// What the chain has to say at this point: the window once it is found,
    /// and the failure at any other stage.
    pub open spec fn outcome(self) -> Result<ActiveWindowView, ActiveWindowError> {
        if self.stage == HelperStage::Found {
            Ok(self.candidate)
        } else {
            Err(ActiveWindowError::GetActiveWindowFailed)
        }
    }
}

/// The chain before any helper was asked.
pub open spec fn chain_start() -> HelperChainView {
    HelperChainView {
        stage: HelperStage::RunSway,
        payload: Seq::<u8>::empty(),
        handle: Seq::<char>::empty(),
        candidate: empty_window(),
    }
}

impl HelperChain {
    /// A chain at its beginning: the tree-dumping helper is asked first.
    pub fn start() -> (chain: HelperChain)
        ensures
            chain@ == chain_start(),
    {
        HelperChain {
            stage: HelperStage::RunSway,
            payload: Vec::new(),
            handle: String::new(),
            candidate: ActiveWindow::default(),
        }
    }

    /// The program to run now and its arguments; empty where the stage runs
    /// nothing.
    pub fn command(&self) -> (line: Vec<String>)
        ensures
            strings(line@) == self.stage.command_line(self.handle@),
    {
        let mut line: Vec<String> = Vec::new();
        match self.stage {
            HelperStage::RunSway => {
                line.push("swaymsg".to_owned());
                line.push("-t".to_owned());
                line.push("get_tree".to_owned());
            },
            HelperStage::RunHyprland => {
                line.push("hyprctl".to_owned());
                line.push("activewindow".to_owned());
                line.push("-j".to_owned());
            },
            HelperStage::RunKwinHandle => {
                line.push("qdbus".to_owned());
                line.push("org.kde.KWin".to_owned());
                line.push("/KWin".to_owned());
                line.push("org.kde.KWin.activeWindow".to_owned());
            },
            HelperStage::RunKwinProperties => {
                line.push("dbus-send".to_owned());
                line.push("--session".to_owned());
                line.push("--print-reply".to_owned());
                line.push("--dest=org.kde.KWin".to_owned());
                line.push(kwin_object_path(self.handle.as_str()));
                line.push("org.freedesktop.DBus.Properties.GetAll".to_owned());
                line.push("string:org.kde.KWin.Window".to_owned());
            },
            HelperStage::RunGnome => {
                line.push("gdbus".to_owned());
                line.push("call".to_owned());
                line.push("--session".to_owned());
                line.push("--dest".to_owned());
                line.push("org.gnome.Shell".to_owned());
                line.push("--object-path".to_owned());
                line.push("/org/gnome/Shell/Extensions/Windows".to_owned());
                line.push("--method".to_owned());
                line.push("org.gnome.Shell.Extensions.Windows.List".to_owned());
            },
            _ => {},
        }
        assert(strings(line@) =~= self.stage.command_line(self.handle@));
        line
    }

    /// The path of the link to read at the stage that resolves the
    /// executable.
    pub fn link(&self) -> (path: String)
        ensures
            path@ == executable_link_path(self.candidate.process_id),
    {
        executable_link(self.candidate.process_id)
    }

    /// Takes the reply to the step that the stage asked for, and moves on.
    pub fn advance(&mut self, reply: &HelperReply)
        ensures
            final(self)@ == old(self)@.next(*reply),
    {
        let settled: Option<ActiveWindow> = match (self.stage, reply) {
            (HelperStage::RunSway, HelperReply::Output(bytes)) => {
                self.payload = slice_to_vec(bytes.as_slice());
                self.stage = HelperStage::DecodeSway;
                return ;
            },
            (HelperStage::DecodeSway, HelperReply::SwayTree(tree)) => try_sway(tree),
            (HelperStage::RunHyprland, HelperReply::Output(bytes)) => {
                self.payload = slice_to_vec(bytes.as_slice());
                self.stage = HelperStage::DecodeHyprland;
                return ;
            },
            (HelperStage::DecodeHyprland, HelperReply::HyprlandWindow(report)) => try_hyprland(report),
            (HelperStage::RunKwinHandle, HelperReply::Output(bytes)) => {
                match kwin_window_handle(bytes.as_slice()) {
                    Some(handle) => {
                        self.handle = handle;
                        self.stage = HelperStage::RunKwinProperties;
                    },
                    None => {
                        self.stage = self.stage.next_helper();
                    },
                }
                return ;
            },
            (HelperStage::RunKwinProperties, HelperReply::Output(bytes)) => try_kwin(
                self.handle.as_str(),
                bytes.as_slice(),
            ),
            (HelperStage::RunGnome, HelperReply::Output(bytes)) => {
                match gnome_json(bytes.as_slice()) {
                    Some(json) => {
                        self.payload = slice_to_vec(json.as_str().as_bytes());
                        self.stage = HelperStage::DecodeGnome;
                    },
                    None => {
                        self.stage = self.stage.next_helper();
                    },
                }
                return ;
            },
            (HelperStage::DecodeGnome, HelperReply::GnomeWindows(windows)) => try_gnome(windows),
            (HelperStage::ResolveExecutable, HelperReply::Executable(path)) => {
                self.candidate.process_path = path.clone();
                self.stage = HelperStage::Found;
                return ;
            },
            _ => None,
        };
        match settled {
            Some(window) => {
                self.candidate = window;
                self.stage = HelperStage::ResolveExecutable;
            },
            None => {
                self.stage = self.stage.next_helper();
            },
        }
    }

    /// Ends the chain: the window if one was found, and the failure if not,
    /// or if the chain has not come to its end.
    pub fn finish(self) -> (result: Result<ActiveWindow, ActiveWindowError>)
        ensures
            viewed(result) == self@.outcome(),
    {
        match self.stage {
            HelperStage::Found => Ok(self.candidate),
            _ => Err(ActiveWindowError::GetActiveWindowFailed),
        }
    }
}

/// The window that a run of helper replies leads to, from the beginning of
/// the chain: the first helper that yields a window wins, and there is no
/// window where none does, or where the replies end before the chain does.
pub open spec fn wayland_window(replies: Seq<HelperReply>) -> Result<
    ActiveWindowView,
    ActiveWindowError,
> {
    chain_start().run(replies).outcome()
}

/// Walks the chain of helpers along the replies that they gave, each reply
/// answering the step that the chain asked for at that point, and gives the
/// window that the first successful helper reported.
pub fn get_active_window_wayland(replies: &Vec<HelperReply>) -> (window: Option<ActiveWindow>)
    ensures
        viewed_option(window) == match wayland_window(replies@) {
            Ok(found) => Some(found),
            Err(_) => None,
        },
{
    let mut chain = HelperChain::start();
    let mut i: usize = 0;
    assert(replies@.take(0) == Seq::<HelperReply>::empty());
    while i < replies.len()
        invariant
            i <= replies.len(),
            chain@ == chain_start().run(replies@.take(i as int)),
        decreases replies.len() - i,
    {
        assert(replies@.take(i + 1).drop_last() == replies@.take(i as int));
        assert(replies@.take(i + 1).last() == replies@[i as int]);
        chain.advance(&replies[i]);
        i += 1;
    }
    assert(replies@.take(replies.len() as int) == replies@);
    match chain.finish() {
        Ok(window) => Some(window),
        Err(_) => None,
    }
}

/// The platform whose windows are found through the chain of helpers.
#[derive(Debug, Clone, Copy, PartialEq, Eq, Structural)]
pub struct WaylandPlatformApi {}

impl PlatformApi for WaylandPlatformApi {
    /// The replies of the helpers, in the order in which the chain asked.
    type Answers = Vec<HelperReply>;

    open spec fn active_window(answers: &Vec<HelperReply>) -> Result<
        ActiveWindowView,
        ActiveWindowError,
    > {
        wayland_window(answers@)
    }

    open spec fn position(answers: &Vec<HelperReply>) -> Result<WindowPosition, ActiveWindowError> {
        position_of(wayland_window(answers@))
    }

    proof fn lemma_position_agrees(answers: &Vec<HelperReply>) {
    }

    fn get_position(&self, answers: &Vec<HelperReply>) -> (position: Result<
        WindowPosition,
        ActiveWindowError,
    >) {
        match get_active_window_wayland(answers) {
            Some(window) => Ok(window.position),
            None => Err(ActiveWindowError::GetActiveWindowFailed),
        }
    }

    fn get_active_window(&self, answers: &Vec<HelperReply>) -> (window: Result<
        ActiveWindow,
        ActiveWindowError,
    >) {
        match get_active_window_wayland(answers) {
            Some(window) => Ok(window),
            None => Err(ActiveWindowError::GetActiveWindowFailed),
        }
    }
}

/// How many replies a chain at this stage can still take before it ends.
pub open spec fn steps_left(stage: HelperStage) -> nat {
    match stage {
        HelperStage::RunSway => 9,
        HelperStage::DecodeSway => 8,
        HelperStage::RunHyprland => 7,
        HelperStage::DecodeHyprland => 6,
        HelperStage::RunKwinHandle => 5,
        HelperStage::RunKwinProperties => 4,
        HelperStage::RunGnome => 3,
        HelperStage::DecodeGnome => 2,
        HelperStage::ResolveExecutable => 1,
        HelperStage::Found | HelperStage::NotFound => 0,
    }
}

/// Every reply brings the chain nearer to its end, and a chain at its end
/// stays as it is whatever it is told.
pub proof fn lemma_chain_step(chain: HelperChainView, reply: HelperReply)
    ensures
        !chain.stage.is_final() ==> steps_left(chain.next(reply).stage) < steps_left(chain.stage),
        chain.stage.is_final() ==> chain.next(reply) == chain,
{
}

/// The chain ends: after nine replies at most it has found a window or has
/// given up, whatever the replies were.
pub proof fn lemma_chain_ends(replies: Seq<HelperReply>)
    ensures
        steps_left(chain_start().run(replies).stage) + replies.len() <= 9 || chain_start().run(
            replies,
        ).stage.is_final(),
        replies.len() >= 9 ==> chain_start().run(replies).stage.is_final(),
    decreases replies.len(),
{
    if replies.len() > 0 {
        lemma_chain_ends(replies.drop_last());
        lemma_chain_step(chain_start().run(replies.drop_last()), replies.last());
    }
}

/// Where every helper fails, so does the query: a chain that hears of
/// nothing but failures never reports a window, and after four failures,
/// one for each helper, it has given up for good.
pub proof fn lemma_no_helper_no_window(replies: Seq<HelperReply>)
    requires
        forall|i: int| 0 <= i < replies.len() ==> replies[i] is Failed,
    ensures
        wayland_window(replies) == Err::<ActiveWindowView, ActiveWindowError>(
            ActiveWindowError::GetActiveWindowFailed,
        ),
        replies.len() >= 4 ==> chain_start().run(replies).stage == HelperStage::NotFound,
    decreases replies.len(),
{
    lemma_only_failures(replies);
}

/// After `n` failures the chain stands at the `n`-th helper's turn.
proof fn lemma_only_failures(replies: Seq<HelperReply>)
    requires
        forall|i: int| 0 <= i < replies.len() ==> replies[i] is Failed,
    ensures
        chain_start().run(replies).stage == (if replies.len() == 0 {
            HelperStage::RunSway
        } else if replies.len() == 1 {
            HelperStage::RunHyprland
        } else if replies.len() == 2 {
            HelperStage::RunKwinHandle
        } else if replies.len() == 3 {
            HelperStage::RunGnome
        } else {
            HelperStage::NotFound
        }),
    decreases replies.len(),
{
    if replies.len() > 0 {
        lemma_only_failures(replies.drop_last());
        assert(replies.last() is Failed);
    }
}

/// A chain at its end stays as it is, whatever replies follow.
pub proof fn lemma_end_is_final(chain: HelperChainView, replies: Seq<HelperReply>)
    requires
        chain.stage.is_final(),
    ensures
        chain.run(replies) == chain,
    decreases replies.len(),
{
    if replies.len() > 0 {
        lemma_end_is_final(chain, replies.drop_last());
        lemma_chain_step(chain, replies.last());
    }
}

/// A run over two lists of replies, one after the other, is the run over
/// the second from where the first has led.
pub proof fn lemma_run_concat(
    chain: HelperChainView,
    first: Seq<HelperReply>,
    second: Seq<HelperReply>,
)
    ensures
        chain.run(first + second) == chain.run(first).run(second),
    decreases second.len(),
{
    if second.len() == 0 {
        assert(first + second == first);
    } else {
        lemma_run_concat(chain, first, second.drop_last());
        assert((first + second).drop_last() == first + second.drop_last());
        assert((first + second).last() == second.last());
    }
}

/// The first helper that yields a window wins: once the replies have led to
/// a window, no later reply changes it.
pub proof fn lemma_first_success_wins(first: Seq<HelperReply>, later: Seq<HelperReply>)
    requires
        wayland_window(first) is Ok,
    ensures
        wayland_window(first + later) == wayland_window(first),
{
    lemma_run_concat(chain_start(), first, later);
    lemma_end_is_final(chain_start().run(first), later);
}

/// A window with the path that the link to its executable gave, or with
/// the path that it had where the link could not be read.
pub open spec fn with_link(window: ActiveWindowView, link: HelperReply) -> ActiveWindowView {
    match link {
        HelperReply::Executable(path) => ActiveWindowView { process_path: path@, ..window },
        _ => window,
    }
}

/// A run over three replies is three steps.
pub proof fn lemma_run_three(
    chain: HelperChainView,
    first: HelperReply,
    second: HelperReply,
    third: HelperReply,
)
    ensures
        chain.run(seq![first, second, third]) == chain.next(first).next(second).next(third),
{
    let replies = seq![first, second, third];
    assert(replies.take(0) == Seq::<HelperReply>::empty());
    assert(replies.take(1).drop_last() == replies.take(0));
    assert(replies.take(2).drop_last() == replies.take(1));
    assert(replies.take(3).drop_last() == replies.take(2));
    assert(replies.take(1).last() == first);
    assert(replies.take(2).last() == second);
    assert(replies.take(3).last() == third);
    assert(replies.take(3) == replies);
    assert(chain.run(replies.take(0)) == chain);
    assert(chain.run(replies.take(1)) == chain.next(first));
    assert(chain.run(replies.take(2)) == chain.next(first).next(second));
}

/// Where the tree helper dumps a tree with a focused window, that window is
/// the result, with the path that the link to its executable gave, or with
/// no path where the link could not be read.
pub proof fn lemma_tree_helper_wins(
    chain: HelperChainView,
    output: Vec<u8>,
    tree: SwayNode,
    link: HelperReply,
)
    requires
        chain.stage == HelperStage::RunSway,
        sway_window(tree) is Some,
    ensures
        chain.run(
            seq![HelperReply::Output(output), HelperReply::SwayTree(tree), link],
        ).outcome() == Ok::<ActiveWindowView, ActiveWindowError>(
            with_link(sway_window(tree)->0, link),
        ),
{
    lemma_run_three(chain, HelperReply::Output(output), HelperReply::SwayTree(tree), link);
}

/// Where the single-window helper reports a window that passes the check,
/// that window is the result.
pub proof fn lemma_single_window_helper_wins(
    chain: HelperChainView,
    output: Vec<u8>,
    report: HyprlandWindow,
    link: HelperReply,
)
    requires
        chain.stage == HelperStage::RunHyprland,
        hyprland_window(report) is Some,
    ensures
        chain.run(
            seq![HelperReply::Output(output), HelperReply::HyprlandWindow(report), link],
        ).outcome() == Ok::<ActiveWindowView, ActiveWindowError>(
            with_link(hyprland_window(report)->0, link),
        ),
{
    lemma_run_three(chain, HelperReply::Output(output), HelperReply::HyprlandWindow(report), link);
}

/// Where the window manager gives a handle and the property listing of
/// that window holds a process id, the window of the listing is the result.
pub proof fn lemma_window_manager_helper_wins(
    chain: HelperChainView,
    reply: Vec<u8>,
    listing: Vec<u8>,
    link: HelperReply,
)
    requires
        chain.stage == HelperStage::RunKwinHandle,
        kwin_handle(reply@) is Some,
        kwin_window(kwin_handle(reply@)->0, listing@) is Some,
    ensures
        chain.run(
            seq![HelperReply::Output(reply), HelperReply::Output(listing), link],
        ).outcome() == Ok::<ActiveWindowView, ActiveWindowError>(
            with_link(kwin_window(kwin_handle(reply@)->0, listing@)->0, link),
        ),
        chain.next(HelperReply::Output(reply)).stage.command_line(
            chain.next(HelperReply::Output(reply)).handle,
        )[4] == kwin_path(kwin_handle(reply@)->0),
{
    lemma_run_three(chain, HelperReply::Output(reply), HelperReply::Output(listing), link);
}

/// Where the shell's helper lists windows and the first of them passes the
/// check, that window is the result. What is handed on to be decoded is
/// the reply without its wrapper.
pub proof fn lemma_window_list_helper_wins(
    chain: HelperChainView,
    reply: Vec<u8>,
    windows: Vec<GnomeWindow>,
    link: HelperReply,
)
    requires
        chain.stage == HelperStage::RunGnome,
        utf8_text(reply@) is Some,
        gnome_window(windows@) is Some,
    ensures
        chain.run(
            seq![HelperReply::Output(reply), HelperReply::GnomeWindows(windows), link],
        ).outcome() == Ok::<ActiveWindowView, ActiveWindowError>(
            with_link(gnome_window(windows@)->0, link),
        ),
        chain.next(HelperReply::Output(reply)).payload == encode_utf8(
            gnome_payload(utf8_text(reply@)->0),
        ),
{
    lemma_run_three(chain, HelperReply::Output(reply), HelperReply::GnomeWindows(windows), link);
}

} // verus!
