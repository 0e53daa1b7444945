//! The X11 protocol: the window manager names the active window in a property
//! of the root window, and the window's own properties tell the rest.
//!
//! The display server is asked one thing after another. This module says what
//! to ask next and what to make of each reply; sending the requests is left
//! to the caller.

use crate::common::active_window::{ActiveWindow, ActiveWindowView};
use crate::common::active_window_error::ActiveWindowError;
use crate::common::platform_api::{position_of, viewed, PlatformApi};
use crate::common::window_position::WindowPosition;
use crate::text::chars::{chars_of_utf8, from_chars, to_chars, utf8_text};
use crate::text::number::{decimal, decimal_chars};
use crate::text::scan::{last_non_empty, last_non_empty_piece, split, split_chars, Pattern};
use vstd::prelude::*;

verus! {

/// The atom that stands for "no atom": what a lookup by name gives when the
/// name is not known to the server.
pub const ATOM_NONE: u32 = 0;

/// A window's geometry as the server reports it: the position relative to
/// the parent, the size, and the root window of its screen.
#[derive(Debug, Clone, Copy, PartialEq, Eq, Structural)]
pub struct XGeometry {
    pub x: i16,
    pub y: i16,
    pub width: u16,
    pub height: u16,
    pub root: u32,
}

/// The atom of the active-window property, if the window manager knows the
/// convention: a lookup that gives no atom means that it does not.
pub fn get_xcb_active_window_atom(atom: u32) -> (known: Option<u32>)
    ensures
        known == (if atom == ATOM_NONE {
            None
        } else {
            Some(atom)
        }),
{
    if atom == ATOM_NONE {
        None
    } else {
        Some(atom)
    }
}

/// The process id in the value of a window's process-id property: the
/// first number, and none where the value is empty, which is how a window
/// without the property answers.
pub open spec fn window_pid(values: Seq<u32>) -> Option<u32> {
    if values.len() > 0 {
        Some(values[0])
    } else {
        None
    }
}

/// Reads the process id from the value of the process-id property.
pub fn get_xcb_window_pid(values: &Vec<u32>) -> (pid: Option<u32>)
    ensures
        pid == window_pid(values@),
{
    if values.len() > 0 {
        Some(values[0])
    } else {
        None
    }
}

/// The text of a property value: what the bytes encode if they are
/// well-formed UTF-8, and the empty text if not.
pub open spec fn property_text(value: Seq<u8>) -> Seq<char> {
    match utf8_text(value) {
        Some(text) => text,
        None => Seq::<char>::empty(),
    }
}

/// Reads a window's title from the value of its name property.
pub fn get_xcb_window_title(value: &[u8]) -> (title: String)
    ensures
        title@ == property_text(value@),
{
    match chars_of_utf8(value) {
        Some(text) => from_chars(&text),
        None => String::new(),
    }
}

/// Reads a window's class from the value of its class property: the
/// instance name and the class name, each followed by a NUL.
pub fn get_xcb_window_class(value: &[u8]) -> (class: String)
    ensures
        class@ == property_text(value@),
{
    match chars_of_utf8(value) {
        Some(text) => from_chars(&text),
        None => String::new(),
    }
}

/// The application's name in a window's class: the last of its
/// NUL-separated parts that is not empty, or the empty text.
pub open spec fn class_name(class: Seq<char>) -> Seq<char> {
    last_non_empty(split(class, Pattern::Char('\0')))
}

/// Picks the application's name out of a window's class.
pub fn application_name(class: &str) -> (name: String)
    ensures
        name@ == class_name(class@),
{
    let parts = split_chars(&to_chars(class), Pattern::Char('\0'));
    from_chars(&last_non_empty_piece(&parts))
}

/// The rectangle of a window on its screen: the corner that the server
/// gave for the window's own position, moved back by that position, and the
/// window's size.
pub open spec fn translated_position(geometry: XGeometry, x: i16, y: i16) -> WindowPosition {
    WindowPosition {
        x: (x - geometry.x) as i64,
        y: (y - geometry.y) as i64,
        width: geometry.width as i64,
        height: geometry.height as i64,
    }
}

/// Works out a window's rectangle in screen coordinates from its geometry
/// and from where the server put the point (`geometry.x`, `geometry.y`) of
/// the window on the root window.
pub fn get_xcb_translated_position(geometry: &XGeometry, x: i16, y: i16) -> (position:
    WindowPosition)
    ensures
        position == translated_position(*geometry, x, y),
{
    WindowPosition::new(
        x as i64 - geometry.x as i64,
        y as i64 - geometry.y as i64,
        geometry.width as i64,
        geometry.height as i64,
    )
}

/// A name that the server is asked to look up.
#[derive(Debug, Clone, Copy, PartialEq, Eq, Structural)]
pub enum AtomName {
    /// `_NET_ACTIVE_WINDOW`: the root window's property that names the
    /// active window.
    ActiveWindow,
    /// `_NET_WM_PID`: a window's property that holds its process id.
    ProcessId,
}

impl AtomName {
    /// The name as the server knows it.
    pub fn text(&self) -> (name: String)
        ensures
            name@ == (match *self {
                AtomName::ActiveWindow => "_NET_ACTIVE_WINDOW"@,
                AtomName::ProcessId => "_NET_WM_PID"@,
            }),
    {
        match self {
            AtomName::ActiveWindow => "_NET_ACTIVE_WINDOW".to_owned(),
            AtomName::ProcessId => "_NET_WM_PID".to_owned(),
        }
    }
}

/// What to ask the display server, or the system, next.
#[derive(Debug, Clone, Copy, PartialEq, Eq, Structural)]
pub enum XRequest {
    /// Open a connection to the display server.
    Connect,
    /// Look up an atom by name, without creating it.
    InternAtom(AtomName),
    /// The root window of the first screen.
    RootWindow,
    /// The value of the root window's active-window property: one window.
    ActiveWindow { root: u32, atom: u32 },
    /// The value of the window's process-id property: one number.
    ProcessId { window: u32, atom: u32 },
    /// The window's geometry.
    Geometry { window: u32 },
    /// Where the point (`x`, `y`) of the window lies on the root window.
    Translate { root: u32, window: u32, x: i16, y: i16 },
    /// The value of the window's name property.
    Title { window: u32 },
    /// The value of the window's class property.
    Class { window: u32 },
    /// The target of the link to the executable of the process.
    Executable { pid: u32 },
    /// Nothing: the query has ended.
    Nothing,
}

/// What came of a request.
#[derive(Debug)]
pub enum XReply {
    /// The request failed, or there was nothing to give.
    Failed,
    /// The connection stands.
    Connected,
    /// An atom or a window.
    Id(u32),
    /// The 32-bit items of a property value.
    Items(Vec<u32>),
    /// A window's geometry.
    Geometry(XGeometry),
    /// A point on the root window.
    Point { x: i16, y: i16 },
    /// The bytes of a property value.
    Bytes(Vec<u8>),
    /// The path of an executable.
    Path(String),
}

/// Where a query stands.
#[derive(Debug, Clone, Copy, PartialEq, Eq, Structural)]
pub enum XStage {
    Connect,
    ActiveWindowAtom,
    RootWindow,
    ActiveWindow,
    ProcessIdAtom,
    ProcessId,
    Geometry,
    Translation,
    Title,
    Class,
    Executable,
    /// The record is complete.
    Found,
    /// Something that the record cannot do without could not be had.
    Failed,
}

/// A query for the active window, as far as it has come.
#[derive(Debug)]
pub struct XQuery {
    pub stage: XStage,
    /// The atom that the next property read needs.
    pub atom: u32,
    /// The root window.
    pub root: u32,
    /// The active window.
    pub window: u32,
    /// The process that owns the window.
    pub pid: u32,
    /// The window's geometry.
    pub geometry: XGeometry,
    /// The record, as far as it is known.
    pub record: ActiveWindow,
}

/// What an [`XQuery`] holds, with the record taken by its view.
pub struct XQueryView {
    pub stage: XStage,
    pub atom: u32,
    pub root: u32,
    pub window: u32,
    pub pid: u32,
    pub geometry: XGeometry,
    pub record: ActiveWindowView,
}

impl View for XQuery {
    type V = XQueryView;

    open spec fn view(&self) -> XQueryView {
        XQueryView {
            stage: self.stage,
            atom: self.atom,
            root: self.root,
            window: self.window,
            pid: self.pid,
            geometry: self.geometry,
            record: self.record@,
        }
    }
}

impl XStage {
    /// Whether the query has ended.
    pub open spec fn is_final(self) -> bool {
        self == XStage::Found || self == XStage::Failed
    }
}

/// The query before anything was asked.
pub open spec fn query_start() -> XQueryView {
    XQueryView {
        stage: XStage::Connect,
        atom: 0,
        root: 0,
        window: 0,
        pid: 0,
        geometry: XGeometry { x: 0, y: 0, width: 0, height: 0, root: 0 },
        record: ActiveWindowView {
            title: Seq::<char>::empty(),
            process_path: Seq::<char>::empty(),
            app_name: Seq::<char>::empty(),
            window_id: Seq::<char>::empty(),
            process_id: 0,
            position: WindowPosition::zero(),
        },
    }
}

impl XQueryView {
    /// What the query asks for at its stage.
    pub open spec fn request(self) -> XRequest {
        match self.stage {
            XStage::Connect => XRequest::Connect,
            XStage::ActiveWindowAtom => XRequest::InternAtom(AtomName::ActiveWindow),
            XStage::RootWindow => XRequest::RootWindow,
            XStage::ActiveWindow => XRequest::ActiveWindow { root: self.root, atom: self.atom },
            XStage::ProcessIdAtom => XRequest::InternAtom(AtomName::ProcessId),
            XStage::ProcessId => XRequest::ProcessId { window: self.window, atom: self.atom },
            XStage::Geometry => XRequest::Geometry { window: self.window },
            XStage::Translation => XRequest::Translate {
                root: self.geometry.root,
                window: self.window,
                x: self.geometry.x,
                y: self.geometry.y,
            },
            XStage::Title => XRequest::Title { window: self.window },
            XStage::Class => XRequest::Class { window: self.window },
            XStage::Executable => XRequest::Executable { pid: self.pid },
            XStage::Found | XStage::Failed => XRequest::Nothing,
        }
    }

    /// The query that has failed.
    pub open spec fn fail(self) -> XQueryView {
        XQueryView { stage: XStage::Failed, ..self }
    }

    /// The query after the reply to what it asked for.
    ///
    /// The connection, the atom of the active-window property, the root
    /// window, the active window, the process id, the geometry and the
    /// translated point are needed: where one of them cannot be had, or the
    /// window manager does not know the property, or the property names no
    /// window, or the window's process-id property holds no number, the
    /// query fails. Title, class and executable are taken where
    /// they can be had and are empty where not.
    pub open spec fn next(self, reply: XReply) -> XQueryView {
        match (self.stage, reply) {
            (XStage::Connect, XReply::Connected) => XQueryView {
                stage: XStage::ActiveWindowAtom,
                ..self
            },
            (XStage::ActiveWindowAtom, XReply::Id(atom)) => if atom == ATOM_NONE {
                self.fail()
            } else {
                XQueryView { stage: XStage::RootWindow, atom, ..self }
            },
            (XStage::RootWindow, XReply::Id(root)) => XQueryView {
                stage: XStage::ActiveWindow,
                root,
                ..self
            },
            (XStage::ActiveWindow, XReply::Items(windows)) => if windows@.len() == 0 {
                self.fail()
            } else {
                XQueryView {
                    stage: XStage::ProcessIdAtom,
                    window: windows@[0],
                    record: ActiveWindowView {
                        window_id: decimal(windows@[0] as nat),
                        ..self.record
                    },
                    ..self
                }
            },
            (XStage::ProcessIdAtom, XReply::Id(atom)) => XQueryView {
                stage: XStage::ProcessId,
                atom,
                ..self
            },
            (XStage::ProcessId, XReply::Items(values)) => match window_pid(values@) {
                Some(pid) => XQueryView {
                    stage: XStage::Geometry,
                    pid,
                    record: ActiveWindowView { process_id: pid as u64, ..self.record },
                    ..self
                },
                None => self.fail(),
            },
            (XStage::Geometry, XReply::Geometry(geometry)) => XQueryView {
                stage: XStage::Translation,
                geometry,
                ..self
            },
            (XStage::Translation, XReply::Point { x, y }) => XQueryView {
                stage: XStage::Title,
                record: ActiveWindowView {
                    position: translated_position(self.geometry, x, y),
                    ..self.record
                },
                ..self
            },
            (XStage::Title, XReply::Bytes(value)) => XQueryView {
                stage: XStage::Class,
                record: ActiveWindowView { title: property_text(value@), ..self.record },
                ..self
            },
            (XStage::Title, _) => XQueryView { stage: XStage::Class, ..self },
            (XStage::Class, XReply::Bytes(value)) => XQueryView {
                stage: XStage::Executable,
                record: ActiveWindowView {
                    app_name: class_name(property_text(value@)),
                    ..self.record
                },
                ..self
            },
            (XStage::Class, _) => XQueryView { stage: XStage::Executable, ..self },
            (XStage::Executable, XReply::Path(path)) => XQueryView {
                stage: XStage::Found,
                record: ActiveWindowView { process_path: path@, ..self.record },
                ..self
            },
            (XStage::Executable, _) => XQueryView { stage: XStage::Found, ..self },
            (XStage::Found, _) => self,
            _ => self.fail(),
        }
    }

    /// The query after a run of replies, each to what the query asked for
    /// at that point.
    pub open spec fn run(self, replies: Seq<XReply>) -> XQueryView
        decreases replies.len(),
    {
        if replies.len() == 0 {
            self
        } else {
            self.run(replies.drop_last()).next(replies.last())
        }
    }

    /// What the query has to say at this point: the record once it is
    /// complete, and the failure at any other stage.
    pub open spec fn outcome(self) -> Result<ActiveWindowView, ActiveWindowError> {
        if self.stage == XStage::Found {
            Ok(self.record)
        } else {
            Err(ActiveWindowError::GetActiveWindowFailed)
        }
    }
}

impl XQuery {
    /// A query at its beginning.
    pub fn start() -> (query: XQuery)
        ensures
            query@ == query_start(),
    {
        XQuery {
            stage: XStage::Connect,
            atom: 0,
            root: 0,
            window: 0,
            pid: 0,
            geometry: XGeometry { x: 0, y: 0, width: 0, height: 0, root: 0 },
            record: ActiveWindow::default(),
        }
    }

    /// What to ask for now.
    pub fn request(&self) -> (request: XRequest)
        ensures
            request == self@.request(),
    {
        match self.stage {
            XStage::Connect => XRequest::Connect,
            XStage::ActiveWindowAtom => XRequest::InternAtom(AtomName::ActiveWindow),
            XStage::RootWindow => XRequest::RootWindow,
            XStage::ActiveWindow => XRequest::ActiveWindow { root: self.root, atom: self.atom },
            XStage::ProcessIdAtom => XRequest::InternAtom(AtomName::ProcessId),
            XStage::ProcessId => XRequest::ProcessId { window: self.window, atom: self.atom },
            XStage::Geometry => XRequest::Geometry { window: self.window },
            XStage::Translation => XRequest::Translate {
                root: self.geometry.root,
                window: self.window,
                x: self.geometry.x,
                y: self.geometry.y,
            },
            XStage::Title => XRequest::Title { window: self.window },
            XStage::Class => XRequest::Class { window: self.window },
            XStage::Executable => XRequest::Executable { pid: self.pid },
            XStage::Found | XStage::Failed => XRequest::Nothing,
        }
    }

    /// Takes the reply to what the query asked for, and moves on.
    pub fn advance(&mut self, reply: &XReply)
        ensures
            final(self)@ == old(self)@.next(*reply),
    {
        match (self.stage, reply) {
            (XStage::Connect, XReply::Connected) => {
                self.stage = XStage::ActiveWindowAtom;
            },
            (XStage::ActiveWindowAtom, XReply::Id(atom)) => {
                match get_xcb_active_window_atom(*atom) {
                    Some(known) => {
                        self.atom = known;
                        self.stage = XStage::RootWindow;
                    },
                    None => {
                        self.stage = XStage::Failed;
                    },
                }
            },
            (XStage::RootWindow, XReply::Id(root)) => {
                self.root = *root;
                self.stage = XStage::ActiveWindow;
            },
            (XStage::ActiveWindow, XReply::Items(windows)) => {
                if windows.len() == 0 {
                    self.stage = XStage::Failed;
                } else {
                    self.window = windows[0];
                    self.record.window_id = from_chars(&decimal_chars(windows[0] as u64));
                    self.stage = XStage::ProcessIdAtom;
                }
            },
            (XStage::ProcessIdAtom, XReply::Id(atom)) => {
                self.atom = *atom;
                self.stage = XStage::ProcessId;
            },
            (XStage::ProcessId, XReply::Items(values)) => {
                match get_xcb_window_pid(values) {
                    Some(pid) => {
                        self.pid = pid;
                        self.record.process_id = pid as u64;
                        self.stage = XStage::Geometry;
                    },
                    None => {
                        self.stage = XStage::Failed;
                    },
                }
            },
            (XStage::Geometry, XReply::Geometry(geometry)) => {
                self.geometry = *geometry;
                self.stage = XStage::Translation;
            },
            (XStage::Translation, XReply::Point { x, y }) => {
                self.record.position = get_xcb_translated_position(&self.geometry, *x, *y);
                self.stage = XStage::Title;
            },
            (XStage::Title, XReply::Bytes(value)) => {
                self.record.title = get_xcb_window_title(value.as_slice());
                self.stage = XStage::Class;
            },
            (XStage::Title, _) => {
                self.stage = XStage::Class;
            },
            (XStage::Class, XReply::Bytes(value)) => {
                let class = get_xcb_window_class(value.as_slice());
                self.record.app_name = application_name(class.as_str());
                self.stage = XStage::Executable;
            },
            (XStage::Class, _) => {
                self.stage = XStage::Executable;
            },
            (XStage::Executable, XReply::Path(path)) => {
                self.record.process_path = path.clone();
                self.stage = XStage::Found;
            },
            (XStage::Executable, _) => {
                self.stage = XStage::Found;
            },
            (XStage::Found, _) => {},
            _ => {
                self.stage = XStage::Failed;
            },
        }
    }

    /// Ends the query: the record if it is complete, and the failure if
    /// not.
    pub fn finish(self) -> (result: Result<ActiveWindow, ActiveWindowError>)
        ensures
            viewed(result) == self@.outcome(),
    {
        match self.stage {
            XStage::Found => Ok(self.record),
            _ => Err(ActiveWindowError::GetActiveWindowFailed),
        }
    }
}

/// The record that a run of replies leads to, from the beginning of a
/// query.
pub open spec fn x11_window(replies: Seq<XReply>) -> Result<ActiveWindowView, ActiveWindowError> {
    query_start().run(replies).outcome()
}

/// The platform that speaks the X11 protocol.
#[derive(Debug, Clone, Copy, PartialEq, Eq, Structural)]
pub struct LinuxPlatformApi {}

impl LinuxPlatformApi {
    /// Walks a query along the replies.
    fn query(replies: &Vec<XReply>) -> (result: Result<ActiveWindow, ActiveWindowError>)
        ensures
            viewed(result) == x11_window(replies@),
    {
        let mut query = XQuery::start();
        let mut i: usize = 0;
        assert(replies@.take(0) == Seq::<XReply>::empty());
        while i < replies.len()
            invariant
                i <= replies.len(),
                query@ == query_start().run(replies@.take(i as int)),
            decreases replies.len() - i,
        {
            assert(replies@.take(i + 1).drop_last() == replies@.take(i as int));
            assert(replies@.take(i + 1).last() == replies@[i as int]);
            query.advance(&replies[i]);
            i += 1;
        }
        assert(replies@.take(replies.len() as int) == replies@);
        query.finish()
    }
}

impl PlatformApi for LinuxPlatformApi {
    /// The replies of the display server, in the order in which the query
    /// asked.
    type Answers = Vec<XReply>;

    open spec fn active_window(answers: &Vec<XReply>) -> Result<
        ActiveWindowView,
        ActiveWindowError,
    > {
        x11_window(answers@)
    }

    open spec fn position(answers: &Vec<XReply>) -> Result<WindowPosition, ActiveWindowError> {
        position_of(x11_window(answers@))
    }

    proof fn lemma_position_agrees(answers: &Vec<XReply>) {
    }

    fn get_position(&self, answers: &Vec<XReply>) -> (position: Result<
        WindowPosition,
        ActiveWindowError,
    >) {
        match LinuxPlatformApi::query(answers) {
            Ok(window) => Ok(window.position),
            Err(error) => Err(error),
        }
    }

    fn get_active_window(&self, answers: &Vec<XReply>) -> (window: Result<
        ActiveWindow,
        ActiveWindowError,
    >) {
        LinuxPlatformApi::query(answers)
    }
}

/// How many replies a query at this stage can still take before it ends.
pub open spec fn steps_left(stage: XStage) -> nat {
    match stage {
        XStage::Connect => 11,
        XStage::ActiveWindowAtom => 10,
        XStage::RootWindow => 9,
        XStage::ActiveWindow => 8,
        XStage::ProcessIdAtom => 7,
        XStage::ProcessId => 6,
        XStage::Geometry => 5,
        XStage::Translation => 4,
        XStage::Title => 3,
        XStage::Class => 2,
        XStage::Executable => 1,
        XStage::Found | XStage::Failed => 0,
    }
}

/// Every reply brings the query nearer to its end, and a query at its end
/// stays as it is whatever it is told.
pub proof fn lemma_query_step(query: XQueryView, reply: XReply)
    ensures
        !query.stage.is_final() ==> steps_left(query.next(reply).stage) < steps_left(query.stage),
        query.stage.is_final() ==> query.next(reply) == query,
{
}

/// The query ends: after eleven replies at most the record is complete or
/// the query has failed, whatever the replies were.
pub proof fn lemma_query_ends(replies: Seq<XReply>)
    ensures
        steps_left(query_start().run(replies).stage) + replies.len() <= 11 || query_start().run(
            replies,
        ).stage.is_final(),
        replies.len() >= 11 ==> query_start().run(replies).stage.is_final(),
    decreases replies.len(),
{
    if replies.len() > 0 {
        lemma_query_ends(replies.drop_last());
        lemma_query_step(query_start().run(replies.drop_last()), replies.last());
    }
}

/// A query that has failed stays failed: no later reply brings a record
/// back.
pub proof fn lemma_failure_is_final(query: XQueryView, replies: Seq<XReply>)
    requires
        query.stage == XStage::Failed,
    ensures
        query.run(replies) == query,
    decreases replies.len(),
{
    if replies.len() > 0 {
        lemma_failure_is_final(query, replies.drop_last());
    }
}

/// The replies of a display server that answers everything, in the order in
/// which the query asks.
pub open spec fn complete_replies(
    atom: u32,
    root: u32,
    windows: Vec<u32>,
    pid_atom: u32,
    pids: Vec<u32>,
    geometry: XGeometry,
    x: i16,
    y: i16,
    title: Vec<u8>,
    class: Vec<u8>,
    path: String,
) -> Seq<XReply> {
    seq![
        XReply::Connected,
        XReply::Id(atom),
        XReply::Id(root),
        XReply::Items(windows),
        XReply::Id(pid_atom),
        XReply::Items(pids),
        XReply::Geometry(geometry),
        XReply::Point { x, y },
        XReply::Bytes(title),
        XReply::Bytes(class),
        XReply::Path(path),
    ]
}

/// Where the display server answers everything, the window manager knows
/// the active-window property, the property names a window and the window
/// has a process id, the record is this: the first named window's number in decimal as the identifier,
/// the first number of the process-id property as the process, the geometry
/// moved to screen coordinates, the name property as the title, the last
/// part of the class as the application's name, and the executable's path.
pub proof fn lemma_complete_answers(
    atom: u32,
    root: u32,
    windows: Vec<u32>,
    pid_atom: u32,
    pids: Vec<u32>,
    geometry: XGeometry,
    x: i16,
    y: i16,
    title: Vec<u8>,
    class: Vec<u8>,
    path: String,
)
    requires
        atom != ATOM_NONE,
        windows@.len() > 0,
        pids@.len() > 0,
    ensures
        x11_window(
            complete_replies(atom, root, windows, pid_atom, pids, geometry, x, y, title, class, path),
        ) == Ok::<ActiveWindowView, ActiveWindowError>(
            ActiveWindowView {
                title: property_text(title@),
                process_path: path@,
                app_name: class_name(property_text(class@)),
                window_id: decimal(windows@[0] as nat),
                process_id: pids@[0] as u64,
                position: translated_position(geometry, x, y),
            },
        ),
{
    let replies = complete_replies(
        atom,
        root,
        windows,
        pid_atom,
        pids,
        geometry,
        x,
        y,
        title,
        class,
        path,
    );
    let q0 = query_start();
    let q1 = q0.next(replies[0]);
    assert(q1 == XQueryView { stage: XStage::ActiveWindowAtom, ..q0 });
    let q2 = q1.next(replies[1]);
    assert(q2 == XQueryView { stage: XStage::RootWindow, atom, ..q1 });
    let q3 = q2.next(replies[2]);
    assert(q3 == XQueryView { stage: XStage::ActiveWindow, root, ..q2 });
    let q4 = q3.next(replies[3]);
    assert(q4 == XQueryView {
        stage: XStage::ProcessIdAtom,
        window: windows@[0],
        record: ActiveWindowView { window_id: decimal(windows@[0] as nat), ..q3.record },
        ..q3
    });
    let q5 = q4.next(replies[4]);
    assert(q5 == XQueryView { stage: XStage::ProcessId, atom: pid_atom, ..q4 });
    let q6 = q5.next(replies[5]);
    assert(q6 == XQueryView {
        stage: XStage::Geometry,
        pid: pids@[0],
        record: ActiveWindowView { process_id: pids@[0] as u64, ..q5.record },
        ..q5
    });
    let q7 = q6.next(replies[6]);
    assert(q7 == XQueryView { stage: XStage::Translation, geometry, ..q6 });
    let q8 = q7.next(replies[7]);
    assert(q8 == XQueryView {
        stage: XStage::Title,
        record: ActiveWindowView { position: translated_position(geometry, x, y), ..q7.record },
        ..q7
    });
    let q9 = q8.next(replies[8]);
    assert(q9 == XQueryView {
        stage: XStage::Class,
        record: ActiveWindowView { title: property_text(title@), ..q8.record },
        ..q8
    });
    let q10 = q9.next(replies[9]);
    assert(q10 == XQueryView {
        stage: XStage::Executable,
        record: ActiveWindowView { app_name: class_name(property_text(class@)), ..q9.record },
        ..q9
    });
    let q11 = q10.next(replies[10]);
    assert(q11 == XQueryView {
        stage: XStage::Found,
        record: ActiveWindowView { process_path: path@, ..q10.record },
        ..q10
    });
    lemma_run_prefix(q0, replies, 0);
    lemma_run_prefix(q0, replies, 1);
    lemma_run_prefix(q0, replies, 2);
    lemma_run_prefix(q0, replies, 3);
    lemma_run_prefix(q0, replies, 4);
    lemma_run_prefix(q0, replies, 5);
    lemma_run_prefix(q0, replies, 6);
    lemma_run_prefix(q0, replies, 7);
    lemma_run_prefix(q0, replies, 8);
    lemma_run_prefix(q0, replies, 9);
    lemma_run_prefix(q0, replies, 10);
    assert(q0.run(replies.take(0)) == q0);
    assert(replies.take(11) == replies);
    assert(q0.run(replies) == q11);
}

/// A run over one reply more is the run so far, then that reply.
pub proof fn lemma_run_prefix(query: XQueryView, replies: Seq<XReply>, n: int)
    requires
        0 <= n < replies.len(),
    ensures
        query.run(replies.take(n + 1)) == query.run(replies.take(n)).next(replies[n]),
{
    assert(replies.take(n + 1).drop_last() == replies.take(n));
    assert(replies.take(n + 1).last() == replies[n]);
}

/// Whether the query cannot do without what it asks for at this stage.
/// The title, the class and the executable's path are the only things
/// that it can do without.
pub open spec fn is_needed(stage: XStage) -> bool {
    match stage {
        XStage::Title | XStage::Class | XStage::Executable => false,
        XStage::Found | XStage::Failed => false,
        _ => true,
    }
}

/// Where something needed cannot be had, the whole query fails, whatever
/// follows; where something else cannot be had, the query goes on and the
/// record stays as it is.
pub proof fn lemma_needed_or_not(query: XQueryView, later: Seq<XReply>)
    ensures
        is_needed(query.stage) ==> query.next(XReply::Failed).run(later).outcome() == Err::<
            ActiveWindowView,
            ActiveWindowError,
        >(ActiveWindowError::GetActiveWindowFailed),
        !is_needed(query.stage) && !query.stage.is_final() ==> {
            &&& query.next(XReply::Failed).stage != XStage::Failed
            &&& query.next(XReply::Failed).record == query.record
        },
{
    if is_needed(query.stage) {
        lemma_failure_is_final(query.next(XReply::Failed), later);
    }
}

/// A window whose process-id property holds no number gives no record,
/// whatever else the display server answers: a record cannot do without
/// its process.
pub proof fn lemma_no_pid_no_record(query: XQueryView, values: Vec<u32>, later: Seq<XReply>)
    requires
        query.stage == XStage::ProcessId,
        values@.len() == 0,
    ensures
        query.next(XReply::Items(values)).run(later).outcome() == Err::<
            ActiveWindowView,
            ActiveWindowError,
        >(ActiveWindowError::GetActiveWindowFailed),
{
    lemma_failure_is_final(query.next(XReply::Items(values)), later);
}

} // verus!
