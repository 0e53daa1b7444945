//! The foreground window, the process behind it, and the application that a
//! shell host shows in its place.
//!
//! The system is asked one thing after another. This module says what to
//! ask next and what to make of each reply; making the calls is left to the
//! caller.

use super::window_position::{win_rect_position, FromWinRect, WinRect};
use crate::common::active_window::{ActiveWindow, ActiveWindowView};
use crate::common::active_window_error::ActiveWindowError;
use crate::common::platform_api::{viewed, PlatformApi};
use crate::common::window_position::WindowPosition;
use crate::text::chars::{decode_utf16_lossy, from_chars, same_chars, to_chars, utf16_lossy_text};
use crate::text::number::{hex4, hex4_chars};
use crate::text::scan::{copy_range, last_match, last_match_of, trim_chars, trim_matches, Pattern};
use vstd::prelude::*;

verus! {

/// The title in the text of a window: the text decoded from UTF-16 with
/// every unpaired surrogate replaced, and the empty title for a window
/// without text.
pub open spec fn window_title(units: Seq<u16>) -> Seq<char> {
    if units.len() == 0 {
        Seq::<char>::empty()
    } else {
        utf16_lossy_text(units)
    }
}

/// Reads a window's title from the code units of its text. A window
/// without text has the empty title.
pub fn get_window_title(units: &[u16]) -> (title: String)
    ensures
        title@ == window_title(units@),
{
    if units.len() == 0 {
        String::new()
    } else {
        decode_utf16_lossy(units)
    }
}

/// The description in a version resource's string: the text decoded from
/// UTF-16 without the NULs at its ends.
pub open spec fn file_description(units: Seq<u16>) -> Seq<char> {
    trim_matches(utf16_lossy_text(units), Pattern::Char('\0'))
}

/// Reads the file description from the code units of the version
/// resource's string.
pub fn get_file_description(units: &[u16]) -> (description: String)
    ensures
        description@ == file_description(units@),
{
    let text = decode_utf16_lossy(units);
    from_chars(&trim_chars(&to_chars(text.as_str()), Pattern::Char('\0')))
}

/// The path under which a version resource holds its translation table.
pub open spec fn translation_query_path() -> Seq<char> {
    "\\VarFileInfo\\Translation"@
}

/// Makes the path of the translation table.
pub fn translation_query() -> (path: String)
    ensures
        path@ == translation_query_path(),
{
    "\\VarFileInfo\\Translation".to_owned()
}

/// The path under which a version resource holds the file description for
/// a language and code page: both numbers as four hexadecimal digits each.
pub open spec fn description_query_path(language: u16, code_page: u16) -> Seq<char> {
    "\\StringFileInfo\\"@ + hex4(language) + hex4(code_page) + "\\FileDescription"@
}

/// Makes the path of the file description for a language and code page.
pub fn description_query(language: u16, code_page: u16) -> (path: String)
    ensures
        path@ == description_query_path(language, code_page),
{
    let mut path = "\\StringFileInfo\\".to_owned();
    path.append(from_chars(&hex4_chars(language)).as_str());
    path.append(from_chars(&hex4_chars(code_page)).as_str());
    path.append("\\FileDescription");
    path
}

/// The file name in a path: what follows the last backslash or slash.
pub open spec fn file_name(path: Seq<char>) -> Seq<char> {
    path.skip(last_match(path, Pattern::Either('\\', '/')) + 1)
}

/// The file name without its extension: what stands before its last dot,
/// or the whole name where it has no dot or only one at its start.
pub open spec fn file_stem(path: Seq<char>) -> Seq<char> {
    let name = file_name(path);
    let dot = last_match(name, Pattern::Char('.'));
    if dot <= 0 {
        name
    } else {
        name.take(dot)
    }
}

/// Cuts the file name out of a path.
fn file_name_chars(path: &Vec<char>) -> (name: Vec<char>)
    ensures
        name@ == file_name(path@),
{
    let from: usize = match last_match_of(path, Pattern::Either('\\', '/')) {
        Some(i) => i + 1,
        None => 0,
    };
    assert(path@.skip(from as int) == path@.subrange(from as int, path.len() as int));
    copy_range(path, from, path.len())
}

/// Cuts the file name without its extension out of a path.
fn file_stem_chars(path: &Vec<char>) -> (stem: Vec<char>)
    ensures
        stem@ == file_stem(path@),
{
    let name = file_name_chars(path);
    match last_match_of(&name, Pattern::Char('.')) {
        Some(dot) => {
            if dot == 0 {
                name
            } else {
                assert(name@.take(dot as int) == name@.subrange(0, dot as int));
                copy_range(&name, 0, dot)
            }
        },
        None => name,
    }
}

/// The file name of the process that hosts the windows of lightweight
/// applications.
pub open spec fn shell_host_name() -> Seq<char> {
    "ApplicationFrameHost.exe"@
}

/// Whether the executable at `path` is the shell host, whose window shows
/// another application's surface.
pub fn is_shell_host(path: &str) -> (host: bool)
    ensures
        host == (file_name(path@) == shell_host_name()),
{
    let name = file_name_chars(&to_chars(path));
    same_chars(&name, &to_chars("ApplicationFrameHost.exe"))
}

/// The name to show for an application: the description of its
/// executable, or where that is empty the executable's file name without
/// its extension.
pub open spec fn process_name(description: Seq<char>, path: Seq<char>) -> Seq<char> {
    if description.len() > 0 {
        description
    } else {
        file_stem(path)
    }
}

/// Picks the name to show for an application from the description of its
/// executable, which is empty where it has none, and from its path.
pub fn get_process_name(description: &str, path: &str) -> (name: String)
    ensures
        name@ == process_name(description@, path@),
{
    let text = to_chars(description);
    if text.len() > 0 {
        from_chars(&text)
    } else {
        from_chars(&file_stem_chars(&to_chars(path)))
    }
}

/// What to ask the system next.
#[derive(Debug, Clone, Copy, PartialEq, Eq, Structural)]
pub enum WinRequest {
    /// The handle of the foreground window.
    ForegroundWindow,
    /// The rectangle of the window.
    WindowRect { handle: i64 },
    /// The text of the window.
    WindowText { handle: i64 },
    /// The process that owns the window.
    ProcessId { handle: i64 },
    /// The path of the executable of the process.
    ProcessPath { pid: u32 },
    /// The first entry of the translation table in the version resource of
    /// the executable whose path the query holds.
    VersionTranslation,
    /// The string of the version resource that the query's description
    /// path names.
    VersionDescription,
    /// The windows that have the focus and are active in the foreground
    /// thread.
    GuiThread,
    /// Nothing: the query has ended.
    Nothing,
}

/// What came of a request.
#[derive(Debug)]
pub enum WinReply {
    /// The call failed, or there was nothing to give.
    Failed,
    /// A window handle as a number, 0 for the null handle, and as the
    /// text that identifies the window.
    Handle { raw: i64, text: String },
    /// A window's rectangle.
    Rect(WinRect),
    /// UTF-16 code units: a window's text or a string of a version
    /// resource.
    Units(Vec<u16>),
    /// A process id.
    ProcessId(u32),
    /// The path of an executable.
    Path(String),
    /// A language and a code page.
    Translation { language: u16, code_page: u16 },
    /// The handles of the focused and of the active window, 0 for the null
    /// handle.
    GuiThread { focus: i64, active: i64 },
}

/// Where a query stands.
#[derive(Debug, Clone, Copy, PartialEq, Eq, Structural)]
pub enum WinStage {
    ForegroundWindow,
    WindowRect,
    WindowText,
    ProcessId,
    ProcessPath,
    VersionTranslation,
    VersionDescription,
    GuiThread,
    /// The record is complete.
    Found,
    /// Something that the record cannot do without could not be had.
    Failed,
}

/// A query for the active window, as far as it has come.
#[derive(Debug)]
pub struct WinQuery {
    pub stage: WinStage,
    /// Whether the rectangle is known.
    pub positioned: bool,
    /// Whether the query has turned from a shell host to the application
    /// that it shows.
    pub hosted: bool,
    /// The window that is asked about.
    pub handle: i64,
    /// The process that is asked about.
    pub pid: u32,
    /// The language of the version resource.
    pub language: u16,
    /// The code page of the version resource.
    pub code_page: u16,
    /// The record, as far as it is known.
    pub record: ActiveWindow,
}

/// What a [`WinQuery`] holds, with the record taken by its view.
pub struct WinQueryView {
    pub stage: WinStage,
    pub positioned: bool,
    pub hosted: bool,
    pub handle: i64,
    pub pid: u32,
    pub language: u16,
    pub code_page: u16,
    pub record: ActiveWindowView,
}

impl View for WinQuery {
    type V = WinQueryView;

    open spec fn view(&self) -> WinQueryView {
        WinQueryView {
            stage: self.stage,
            positioned: self.positioned,
            hosted: self.hosted,
            handle: self.handle,
            pid: self.pid,
            language: self.language,
            code_page: self.code_page,
            record: self.record@,
        }
    }
}

impl WinStage {
    /// Whether the query has ended.
    pub open spec fn is_final(self) -> bool {
        self == WinStage::Found || self == WinStage::Failed
    }
}

/// The query before anything was asked.
pub open spec fn query_start() -> WinQueryView {
    WinQueryView {
        stage: WinStage::ForegroundWindow,
        positioned: false,
        hosted: false,
        handle: 0,
        pid: 0,
        language: 0,
        code_page: 0,
        record: ActiveWindowView {
            title: Seq::<char>::empty(),
            process_path: Seq::<char>::empty(),
            app_name: Seq::<char>::empty(),
            window_id: Seq::<char>::empty(),
            process_id: 0,
            position: WindowPosition::zero(),
        },
    }
}

impl WinQueryView {
    /// What the query asks for at its stage.
    pub open spec fn request(self) -> WinRequest {
        match self.stage {
            WinStage::ForegroundWindow => WinRequest::ForegroundWindow,
            WinStage::WindowRect => WinRequest::WindowRect { handle: self.handle },
            WinStage::WindowText => WinRequest::WindowText { handle: self.handle },
            WinStage::ProcessId => WinRequest::ProcessId { handle: self.handle },
            WinStage::ProcessPath => WinRequest::ProcessPath { pid: self.pid },
            WinStage::VersionTranslation => WinRequest::VersionTranslation,
            WinStage::VersionDescription => WinRequest::VersionDescription,
            WinStage::GuiThread => WinRequest::GuiThread,
            WinStage::Found | WinStage::Failed => WinRequest::Nothing,
        }
    }

    /// What the query asks for where only the rectangle is sought: nothing
    /// more once the rectangle is known.
    pub open spec fn position_request(self) -> WinRequest {
        if self.positioned {
            WinRequest::Nothing
        } else {
            self.request()
        }
    }

    /// The query that has failed.
    pub open spec fn fail(self) -> WinQueryView {
        WinQueryView { stage: WinStage::Failed, ..self }
    }

    /// The query once the application's name is settled, with the given
    /// description of its executable, empty where it has none. Where the
    /// executable is the shell host, the query turns, once, to the
    /// application that the host shows; else the record is complete.
    pub open spec fn named(self, description: Seq<char>) -> WinQueryView {
        let record = ActiveWindowView {
            app_name: process_name(description, self.record.process_path),
            ..self.record
        };
        if !self.hosted && file_name(self.record.process_path) == shell_host_name() {
            WinQueryView { stage: WinStage::GuiThread, hosted: true, record, ..self }
        } else {
            WinQueryView { stage: WinStage::Found, record, ..self }
        }
    }

    /// The query after the reply to what it asked for.
    ///
    /// The window, its rectangle and its process are needed: where one of
    /// them cannot be had, the query fails. The window's text, the path of
    /// the executable and its description are taken where they can be had
    /// and are empty where not. For a shell host, the process, its path and
    /// its name are asked again of the window that has the focus in the
    /// foreground thread, or of the active one where none has, and replace
    /// those of the host.
    pub open spec fn next(self, reply: WinReply) -> WinQueryView {
        match (self.stage, reply) {
            (WinStage::ForegroundWindow, WinReply::Handle { raw, text }) => if raw == 0 {
                self.fail()
            } else {
                WinQueryView {
                    stage: WinStage::WindowRect,
                    handle: raw,
                    record: ActiveWindowView { window_id: text@, ..self.record },
                    ..self
                }
            },
            (WinStage::WindowRect, WinReply::Rect(rect)) => WinQueryView {
                stage: WinStage::WindowText,
                positioned: true,
                record: ActiveWindowView { position: win_rect_position(rect), ..self.record },
                ..self
            },
            (WinStage::WindowText, WinReply::Units(units)) => WinQueryView {
                stage: WinStage::ProcessId,
                record: ActiveWindowView { title: window_title(units@), ..self.record },
                ..self
            },
            (WinStage::WindowText, _) => WinQueryView { stage: WinStage::ProcessId, ..self },
            (WinStage::ProcessId, WinReply::ProcessId(pid)) => if pid == 0 {
                self.fail()
            } else {
                WinQueryView {
                    stage: WinStage::ProcessPath,
                    pid,
                    record: ActiveWindowView { process_id: pid as u64, ..self.record },
                    ..self
                }
            },
            (WinStage::ProcessPath, WinReply::Path(path)) => WinQueryView {
                stage: WinStage::VersionTranslation,
                record: ActiveWindowView { process_path: path@, ..self.record },
                ..self
            },
            (WinStage::ProcessPath, _) => WinQueryView {
                stage: WinStage::Found,
                record: ActiveWindowView {
                    process_path: Seq::<char>::empty(),
                    app_name: Seq::<char>::empty(),
                    ..self.record
                },
                ..self
            },
            (WinStage::VersionTranslation, WinReply::Translation { language, code_page }) => {
                WinQueryView { stage: WinStage::VersionDescription, language, code_page, ..self }
            },
            (WinStage::VersionTranslation, _) => self.named(Seq::<char>::empty()),
            (WinStage::VersionDescription, WinReply::Units(units)) => self.named(
                file_description(units@),
            ),
            (WinStage::VersionDescription, _) => self.named(Seq::<char>::empty()),
            (WinStage::GuiThread, WinReply::GuiThread { focus, active }) => WinQueryView {
                stage: WinStage::ProcessId,
                handle: if focus != 0 {
                    focus
                } else {
                    active
                },
                ..self
            },
            (WinStage::Found, _) => self,
            _ => self.fail(),
        }
    }

    /// The query after a run of replies, each to what the query asked for
    /// at that point.
    pub open spec fn run(self, replies: Seq<WinReply>) -> WinQueryView
        decreases replies.len(),
    {
        if replies.len() == 0 {
            self
        } else {
            self.run(replies.drop_last()).next(replies.last())
        }
    }

    /// What the query has to say at this point: the record once it is
    /// complete, and the failure at any other stage.
    pub open spec fn outcome(self) -> Result<ActiveWindowView, ActiveWindowError> {
        if self.stage == WinStage::Found {
            Ok(self.record)
        } else {
            Err(ActiveWindowError::GetActiveWindowFailed)
        }
    }

    /// The rectangle that the query has to give at this point: that of the
    /// foreground window once it is known, whatever became of the rest.
    pub open spec fn position(self) -> Result<WindowPosition, ActiveWindowError> {
        if self.positioned {
            Ok(self.record.position)
        } else {
            Err(ActiveWindowError::GetActiveWindowFailed)
        }
    }

    /// Whether the query is one that the replies of the system can lead to:
    /// past the stage that asks for the rectangle, the rectangle is known.
    pub open spec fn consistent(self) -> bool {
        self.positioned || self.stage == WinStage::ForegroundWindow || self.stage
            == WinStage::WindowRect || self.stage == WinStage::Failed
    }
}

impl WinQuery {
    /// A query at its beginning.
    pub fn start() -> (query: WinQuery)
        ensures
            query@ == query_start(),
    {
        WinQuery {
            stage: WinStage::ForegroundWindow,
            positioned: false,
            hosted: false,
            handle: 0,
            pid: 0,
            language: 0,
            code_page: 0,
            record: ActiveWindow::default(),
        }
    }

    /// What to ask for now.
    pub fn request(&self) -> (request: WinRequest)
        ensures
            request == self@.request(),
    {
        match self.stage {
            WinStage::ForegroundWindow => WinRequest::ForegroundWindow,
            WinStage::WindowRect => WinRequest::WindowRect { handle: self.handle },
            WinStage::WindowText => WinRequest::WindowText { handle: self.handle },
            WinStage::ProcessId => WinRequest::ProcessId { handle: self.handle },
            WinStage::ProcessPath => WinRequest::ProcessPath { pid: self.pid },
            WinStage::VersionTranslation => WinRequest::VersionTranslation,
            WinStage::VersionDescription => WinRequest::VersionDescription,
            WinStage::GuiThread => WinRequest::GuiThread,
            WinStage::Found | WinStage::Failed => WinRequest::Nothing,
        }
    }

    /// What to ask for now where only the rectangle is sought.
    pub fn position_request(&self) -> (request: WinRequest)
        ensures
            request == self@.position_request(),
    {
        if self.positioned {
            WinRequest::Nothing
        } else {
            self.request()
        }
    }

    /// The path of the executable whose version resource is asked about.
    pub fn executable(&self) -> (path: String)
        ensures
            path@ == self.record.process_path@,
    {
        self.record.process_path.clone()
    }

    /// The path of the string to ask the version resource for at the stage
    /// that asks for the description.
    pub fn description_path(&self) -> (path: String)
        ensures
            path@ == description_query_path(self.language, self.code_page),
    {
        description_query(self.language, self.code_page)
    }

    /// Settles the application's name.
    fn name(&mut self, description: &str)
        ensures
            final(self)@ == old(self)@.named(description@),
    {
        self.record.app_name = get_process_name(description, self.record.process_path.as_str());
        if !self.hosted && is_shell_host(self.record.process_path.as_str()) {
            self.hosted = true;
            self.stage = WinStage::GuiThread;
        } else {
            self.stage = WinStage::Found;
        }
    }

    /// Takes the reply to what the query asked for, and moves on.
    pub fn advance(&mut self, reply: &WinReply)
        ensures
            final(self)@ == old(self)@.next(*reply),
    {
        match (self.stage, reply) {
            (WinStage::ForegroundWindow, WinReply::Handle { raw, text }) => {
                if *raw == 0 {
                    self.stage = WinStage::Failed;
                } else {
                    self.handle = *raw;
                    self.record.window_id = text.clone();
                    self.stage = WinStage::WindowRect;
                }
            },
            (WinStage::WindowRect, WinReply::Rect(rect)) => {
                self.record.position = WindowPosition::from_win_rect(rect);
                self.positioned = true;
                self.stage = WinStage::WindowText;
            },
            (WinStage::WindowText, WinReply::Units(units)) => {
                self.record.title = get_window_title(units.as_slice());
                self.stage = WinStage::ProcessId;
            },
            (WinStage::WindowText, _) => {
                self.stage = WinStage::ProcessId;
            },
            (WinStage::ProcessId, WinReply::ProcessId(pid)) => {
                if *pid == 0 {
                    self.stage = WinStage::Failed;
                } else {
                    self.pid = *pid;
                    self.record.process_id = *pid as u64;
                    self.stage = WinStage::ProcessPath;
                }
            },
            (WinStage::ProcessPath, WinReply::Path(path)) => {
                self.record.process_path = path.clone();
                self.stage = WinStage::VersionTranslation;
            },
            (WinStage::ProcessPath, _) => {
                self.record.process_path = String::new();
                self.record.app_name = String::new();
                self.stage = WinStage::Found;
            },
            (WinStage::VersionTranslation, WinReply::Translation { language, code_page }) => {
                self.language = *language;
                self.code_page = *code_page;
                self.stage = WinStage::VersionDescription;
            },
            (WinStage::VersionTranslation, _) => {
                self.name(String::new().as_str());
            },
            (WinStage::VersionDescription, WinReply::Units(units)) => {
                let description = get_file_description(units.as_slice());
                self.name(description.as_str());
            },
            (WinStage::VersionDescription, _) => {
                self.name(String::new().as_str());
            },
            (WinStage::GuiThread, WinReply::GuiThread { focus, active }) => {
                self.handle = if *focus != 0 {
                    *focus
                } else {
                    *active
                };
                self.stage = WinStage::ProcessId;
            },
            (WinStage::Found, _) => {},
            _ => {
                self.stage = WinStage::Failed;
            },
        }
    }

    /// Ends the query: the record if it is complete, and the failure if
    /// not.
    pub fn finish(self) -> (result: Result<ActiveWindow, ActiveWindowError>)
        ensures
            viewed(result) == self@.outcome(),
    {
        match self.stage {
            WinStage::Found => Ok(self.record),
            _ => Err(ActiveWindowError::GetActiveWindowFailed),
        }
    }

    /// The rectangle of the foreground window, once it is known.
    pub fn position(&self) -> (position: Result<WindowPosition, ActiveWindowError>)
        ensures
            position == self@.position(),
    {
        if self.positioned {
            Ok(self.record.position)
        } else {
            Err(ActiveWindowError::GetActiveWindowFailed)
        }
    }
}

/// The record that a run of replies leads to, from the beginning of a
/// query.
pub open spec fn windows_window(replies: Seq<WinReply>) -> Result<
    ActiveWindowView,
    ActiveWindowError,
> {
    query_start().run(replies).outcome()
}

/// The rectangle that a run of replies leads to, from the beginning of a
/// query.
pub open spec fn windows_position(replies: Seq<WinReply>) -> Result<
    WindowPosition,
    ActiveWindowError,
> {
    query_start().run(replies).position()
}

/// A reply leaves a consistent query consistent.
pub proof fn lemma_next_is_consistent(query: WinQueryView, reply: WinReply)
    requires
        query.consistent(),
    ensures
        query.next(reply).consistent(),
{
}

/// Whatever the replies, the query that they lead to is consistent: a
/// complete record has the rectangle of the foreground window.
pub proof fn lemma_run_is_consistent(replies: Seq<WinReply>)
    ensures
        query_start().run(replies).consistent(),
    decreases replies.len(),
{
    if replies.len() > 0 {
        lemma_run_is_consistent(replies.drop_last());
        lemma_next_is_consistent(query_start().run(replies.drop_last()), replies.last());
    }
}

/// The platform of the single foreground window.
#[derive(Debug, Clone, Copy, PartialEq, Eq, Structural)]
pub struct WindowsPlatformApi {}

impl WindowsPlatformApi {
    /// Walks a query along the replies.
    fn query(replies: &Vec<WinReply>) -> (query: WinQuery)
        ensures
            query@ == query_start().run(replies@),
    {
        let mut query = WinQuery::start();
        let mut i: usize = 0;
        assert(replies@.take(0) == Seq::<WinReply>::empty());
        while i < replies.len()
            invariant
                i <= replies.len(),
                query@ == query_start().run(replies@.take(i as int)),
            decreases replies.len() - i,
        {
            assert(replies@.take(i + 1).drop_last() == replies@.take(i as int));
            assert(replies@.take(i + 1).last() == replies@[i as int]);
            query.advance(&replies[i]);
            i += 1;
        }
        assert(replies@.take(replies.len() as int) == replies@);
        query
    }
}

impl PlatformApi for WindowsPlatformApi {
    /// The replies of the system, in the order in which the query asked.
    type Answers = Vec<WinReply>;

    open spec fn active_window(answers: &Vec<WinReply>) -> Result<
        ActiveWindowView,
        ActiveWindowError,
    > {
        windows_window(answers@)
    }

    open spec fn position(answers: &Vec<WinReply>) -> Result<WindowPosition, ActiveWindowError> {
        windows_position(answers@)
    }

    proof fn lemma_position_agrees(answers: &Vec<WinReply>) {
        lemma_run_is_consistent(answers@);
    }

    /// The rectangle of the foreground window. It needs the window and its
    /// rectangle only, so it is there even where the full query fails
    /// later on.
    fn get_position(&self, answers: &Vec<WinReply>) -> (position: Result<
        WindowPosition,
        ActiveWindowError,
    >) {
        WindowsPlatformApi::query(answers).position()
    }

    fn get_active_window(&self, answers: &Vec<WinReply>) -> (window: Result<
        ActiveWindow,
        ActiveWindowError,
    >) {
        WindowsPlatformApi::query(answers).finish()
    }
}

/// How many replies a query can still take before it ends. A query that
/// has turned to a hosted application is nearer to its end than one that
/// has not.
pub open spec fn steps_left(query: WinQueryView) -> nat {
    if query.hosted {
        match query.stage {
            WinStage::ForegroundWindow => 7,
            WinStage::WindowRect => 6,
            WinStage::WindowText => 5,
            WinStage::GuiThread => 5,
            WinStage::ProcessId => 4,
            WinStage::ProcessPath => 3,
            WinStage::VersionTranslation => 2,
            WinStage::VersionDescription => 1,
            WinStage::Found | WinStage::Failed => 0,
        }
    } else {
        match query.stage {
            WinStage::ForegroundWindow => 13,
            WinStage::WindowRect => 12,
            WinStage::WindowText => 11,
            WinStage::GuiThread => 11,
            WinStage::ProcessId => 10,
            WinStage::ProcessPath => 9,
            WinStage::VersionTranslation => 8,
            WinStage::VersionDescription => 7,
            WinStage::Found | WinStage::Failed => 0,
        }
    }
}

/// Every reply brings the query nearer to its end, and a query at its end
/// stays as it is whatever it is told.
pub proof fn lemma_query_step(query: WinQueryView, reply: WinReply)
    ensures
        !query.stage.is_final() ==> steps_left(query.next(reply)) < steps_left(query),
        query.stage.is_final() ==> query.next(reply) == query,
{
}

/// The query ends: after thirteen replies at most the record is complete
/// or the query has failed, whatever the replies were. In particular a
/// shell host is looked behind once only.
pub proof fn lemma_query_ends(replies: Seq<WinReply>)
    ensures
        steps_left(query_start().run(replies)) + replies.len() <= 13 || query_start().run(
            replies,
        ).stage.is_final(),
        replies.len() >= 13 ==> query_start().run(replies).stage.is_final(),
    decreases replies.len(),
{
    if replies.len() > 0 {
        lemma_query_ends(replies.drop_last());
        lemma_query_step(query_start().run(replies.drop_last()), replies.last());
    }
}

/// A shell host's own name and path are never the record's: once the query
/// has seen that the executable is the shell host, the record that it ends
/// with, if any, has whatever was found for the hosted application, and
/// nothing where nothing was found.
pub proof fn lemma_host_is_not_surfaced(query: WinQueryView, description: Seq<char>)
    requires
        !query.hosted,
        file_name(query.record.process_path) == shell_host_name(),
    ensures
        query.named(description).stage == WinStage::GuiThread,
        query.named(description).hosted,
        forall|reply: WinReply| (#[trigger] query.named(description).next(reply)).stage
            == WinStage::ProcessId || query.named(description).next(reply).stage
            == WinStage::Failed,
{
}

/// A run over one reply more is the run so far, then that reply.
pub proof fn lemma_run_prefix(query: WinQueryView, replies: Seq<WinReply>, n: int)
    requires
        0 <= n < replies.len(),
    ensures
        query.run(replies.take(n + 1)) == query.run(replies.take(n)).next(replies[n]),
{
    assert(replies.take(n + 1).drop_last() == replies.take(n));
    assert(replies.take(n + 1).last() == replies[n]);
}

/// Where the system answers everything about a foreground window whose
/// executable is not the shell host, the record is this: the handle's text
/// as the identifier, the rectangle as corner and size, the window's text
/// as the title, the process and the path of its executable, and as the
/// name the description of the executable, or its file name without the
/// extension where the description is empty.
pub proof fn lemma_plain_window(
    raw: i64,
    text: String,
    rect: WinRect,
    title: Vec<u16>,
    pid: u32,
    path: String,
    language: u16,
    code_page: u16,
    description: Vec<u16>,
)
    requires
        raw != 0,
        pid != 0,
        file_name(path@) != shell_host_name(),
    ensures
        windows_window(
            seq![
                WinReply::Handle { raw, text },
                WinReply::Rect(rect),
                WinReply::Units(title),
                WinReply::ProcessId(pid),
                WinReply::Path(path),
                WinReply::Translation { language, code_page },
                WinReply::Units(description),
            ],
        ) == Ok::<ActiveWindowView, ActiveWindowError>(
            ActiveWindowView {
                title: window_title(title@),
                process_path: path@,
                app_name: process_name(file_description(description@), path@),
                window_id: text@,
                process_id: pid as u64,
                position: win_rect_position(rect),
            },
        ),
{
    let replies = seq![
        WinReply::Handle { raw, text },
        WinReply::Rect(rect),
        WinReply::Units(title),
        WinReply::ProcessId(pid),
        WinReply::Path(path),
        WinReply::Translation { language, code_page },
        WinReply::Units(description),
    ];
    let q0 = query_start();
    let q1 = q0.next(replies[0]);
    assert(q1 == WinQueryView {
        stage: WinStage::WindowRect,
        handle: raw,
        record: ActiveWindowView { window_id: text@, ..q0.record },
        ..q0
    });
    let q2 = q1.next(replies[1]);
    assert(q2 == WinQueryView {
        stage: WinStage::WindowText,
        positioned: true,
        record: ActiveWindowView { position: win_rect_position(rect), ..q1.record },
        ..q1
    });
    let q3 = q2.next(replies[2]);
    assert(q3 == WinQueryView {
        stage: WinStage::ProcessId,
        record: ActiveWindowView { title: window_title(title@), ..q2.record },
        ..q2
    });
    let q4 = q3.next(replies[3]);
    assert(q4 == WinQueryView {
        stage: WinStage::ProcessPath,
        pid,
        record: ActiveWindowView { process_id: pid as u64, ..q3.record },
        ..q3
    });
    let q5 = q4.next(replies[4]);
    assert(q5 == WinQueryView {
        stage: WinStage::VersionTranslation,
        record: ActiveWindowView { process_path: path@, ..q4.record },
        ..q4
    });
    let q6 = q5.next(replies[5]);
    assert(q6 == WinQueryView { stage: WinStage::VersionDescription, language, code_page, ..q5 });
    let q7 = q6.next(replies[6]);
    assert(q7 == q6.named(file_description(description@)));
    assert(q7.stage == WinStage::Found);
    lemma_run_prefix(q0, replies, 0);
    lemma_run_prefix(q0, replies, 1);
    lemma_run_prefix(q0, replies, 2);
    lemma_run_prefix(q0, replies, 3);
    lemma_run_prefix(q0, replies, 4);
    lemma_run_prefix(q0, replies, 5);
    lemma_run_prefix(q0, replies, 6);
    assert(q0.run(replies.take(0)) == q0);
    assert(replies.take(7) == replies);
    assert(q0.run(replies) == q7);
}

/// Where the foreground window belongs to the shell host, the record has
/// the identifier, the rectangle and the title of that window, and the
/// process, the path and the name of the application whose window has the
/// focus in the foreground thread, or is active there where none has the
/// focus. Nothing of the host's own process, path or name is left.
pub proof fn lemma_hosted_window(
    query: WinQueryView,
    focus: i64,
    active: i64,
    pid: u32,
    path: String,
    language: u16,
    code_page: u16,
    description: Vec<u16>,
)
    requires
        query.stage == WinStage::GuiThread,
        query.hosted,
        pid != 0,
    ensures
        query.run(
            seq![
                WinReply::GuiThread { focus, active },
                WinReply::ProcessId(pid),
                WinReply::Path(path),
                WinReply::Translation { language, code_page },
                WinReply::Units(description),
            ],
        ).outcome() == Ok::<ActiveWindowView, ActiveWindowError>(
            ActiveWindowView {
                process_path: path@,
                app_name: process_name(file_description(description@), path@),
                process_id: pid as u64,
                ..query.record
            },
        ),
        query.next(WinReply::GuiThread { focus, active }).request() == (WinRequest::ProcessId {
            handle: if focus != 0 {
                focus
            } else {
                active
            },
        }),
{
    let replies = seq![
        WinReply::GuiThread { focus, active },
        WinReply::ProcessId(pid),
        WinReply::Path(path),
        WinReply::Translation { language, code_page },
        WinReply::Units(description),
    ];
    let q0 = query;
    let q1 = q0.next(replies[0]);
    assert(q1.stage == WinStage::ProcessId && q1.hosted && q1.record == q0.record);
    let q2 = q1.next(replies[1]);
    assert(q2 == WinQueryView {
        stage: WinStage::ProcessPath,
        pid,
        record: ActiveWindowView { process_id: pid as u64, ..q1.record },
        ..q1
    });
    let q3 = q2.next(replies[2]);
    assert(q3 == WinQueryView {
        stage: WinStage::VersionTranslation,
        record: ActiveWindowView { process_path: path@, ..q2.record },
        ..q2
    });
    let q4 = q3.next(replies[3]);
    assert(q4 == WinQueryView { stage: WinStage::VersionDescription, language, code_page, ..q3 });
    let q5 = q4.next(replies[4]);
    assert(q5 == q4.named(file_description(description@)));
    assert(q5.stage == WinStage::Found);
    lemma_run_prefix(q0, replies, 0);
    lemma_run_prefix(q0, replies, 1);
    lemma_run_prefix(q0, replies, 2);
    lemma_run_prefix(q0, replies, 3);
    lemma_run_prefix(q0, replies, 4);
    assert(q0.run(replies.take(0)) == q0);
    assert(replies.take(5) == replies);
    assert(q0.run(replies) == q5);
}

/// Whether the query cannot do without what it asks for at this stage:
/// the window, its rectangle, its process, and for a shell host the windows
/// of the foreground thread.
pub open spec fn is_needed(stage: WinStage) -> bool {
    match stage {
        WinStage::ForegroundWindow | WinStage::WindowRect | WinStage::ProcessId
        | WinStage::GuiThread => true,
        _ => false,
    }
}

/// A query that has failed stays failed: no later reply brings a record
/// back.
pub proof fn lemma_failure_is_final(query: WinQueryView, replies: Seq<WinReply>)
    requires
        query.stage == WinStage::Failed,
    ensures
        query.run(replies) == query,
    decreases replies.len(),
{
    if replies.len() > 0 {
        lemma_failure_is_final(query, replies.drop_last());
    }
}

/// Where something needed cannot be had, the whole query fails, whatever
/// follows; where something else cannot be had, the query goes on.
pub proof fn lemma_needed_or_not(query: WinQueryView, later: Seq<WinReply>)
    ensures
        is_needed(query.stage) ==> query.next(WinReply::Failed).run(later).outcome() == Err::<
            ActiveWindowView,
            ActiveWindowError,
        >(ActiveWindowError::GetActiveWindowFailed),
        !is_needed(query.stage) && !query.stage.is_final() ==> query.next(WinReply::Failed).stage
            != WinStage::Failed,
{
    if is_needed(query.stage) {
        lemma_failure_is_final(query.next(WinReply::Failed), later);
    }
}

} // verus!
