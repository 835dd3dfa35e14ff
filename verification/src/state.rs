//! The editor state and what each command does to it.
use vstd::prelude::*;
use vstd::string::*;

use crate::path::{file_name, spec_file_name, PathStyle};
use crate::shortcuts::Command;

verus! {

/// Smallest font size, in points, that the font commands go down to.
pub const MIN_FONT_SIZE: u32 = 8;

/// Largest font size, in points, that the font commands go up to.
pub const MAX_FONT_SIZE: u32 = 32;

/// Font size of a new editor, in points.
pub const DEFAULT_FONT_SIZE: u32 = 14;

/// The state of the editor.
///
/// - `text`: the buffer that the text area edits in place.
/// - `file_path`: the file that the buffer belongs to; `None` for a new,
///   never saved document.
/// - `dirty`: whether the buffer changed since it was last opened or saved
///   (the `*` in the window title).
/// - `show_line_numbers`: whether the line-number gutter is shown.
/// - `word_wrap`: whether long lines wrap.
/// - `font_size`: the editor font size, in whole points.
/// - `show_about`: whether the About window is open.
pub struct AppState {
    pub text: String,
    pub file_path: Option<String>,
    pub dirty: bool,
    pub show_line_numbers: bool,
    pub word_wrap: bool,
    pub font_size: u32,
    pub show_about: bool,
    fonts_initialized: bool,
}

/// The abstract value of an `AppState`: its strings as character sequences.
pub struct EditorView {
    pub text: Seq<char>,
    pub file_path: Option<Seq<char>>,
    pub dirty: bool,
    pub show_line_numbers: bool,
    pub word_wrap: bool,
    pub font_size: u32,
    pub show_about: bool,
    pub appearance_configured: bool,
}

/// The characters of an optional path.
pub open spec fn path_view(path: Option<String>) -> Option<Seq<char>> {
    match path {
        Some(p) => Some(p@),
        None => None,
    }
}

impl View for AppState {
    type V = EditorView;

    /// The fields of the state, with its strings as character sequences;
    /// `appearance_configured` is whether the fonts and colours were set up.
    closed spec fn view(&self) -> EditorView {
        EditorView {
            text: self.text@,
            file_path: path_view(self.file_path),
            dirty: self.dirty,
            show_line_numbers: self.show_line_numbers,
            word_wrap: self.word_wrap,
            font_size: self.font_size,
            show_about: self.show_about,
            appearance_configured: self.fonts_initialized,
        }
    }
}

/// The state of a new editor: an empty, clean, untitled document, line
/// numbers and word wrap on, the default font size, the About window closed
/// and the appearance not yet configured.
pub open spec fn spec_default() -> EditorView {
    EditorView {
        text: Seq::empty(),
        file_path: None,
        dirty: false,
        show_line_numbers: true,
        word_wrap: true,
        font_size: DEFAULT_FONT_SIZE,
        show_about: false,
        appearance_configured: false,
    }
}

/// `v` with its document replaced by a new, empty, untitled, clean one;
/// the settings stay.
pub open spec fn spec_new_file(v: EditorView) -> EditorView {
    EditorView { text: Seq::empty(), file_path: None, dirty: false, ..v }
}

/// `v` after `content` was read from `path`: the buffer holds the content,
/// belongs to `path` and is clean.
pub open spec fn spec_opened(v: EditorView, path: Seq<char>, content: Seq<char>) -> EditorView {
    EditorView { text: content, file_path: Some(path), dirty: false, ..v }
}

/// `v` after its buffer was written to the file it belongs to.
pub open spec fn spec_saved(v: EditorView) -> EditorView {
    EditorView { dirty: false, ..v }
}

/// `v` after its buffer was written to `path`, which it now belongs to.
pub open spec fn spec_saved_as(v: EditorView, path: Seq<char>) -> EditorView {
    EditorView { file_path: Some(path), dirty: false, ..v }
}

/// `v` after the text area changed the buffer.
pub open spec fn spec_edited(v: EditorView) -> EditorView {
    EditorView { dirty: true, ..v }
}

/// `v` after the appearance (fonts and colours) was set up.
pub open spec fn spec_configured(v: EditorView) -> EditorView {
    EditorView { appearance_configured: true, ..v }
}

/// One point larger, but no larger than `MAX_FONT_SIZE`.
pub open spec fn spec_increased(size: u32) -> u32 {
    if size + 1 < MAX_FONT_SIZE {
        (size + 1) as u32
    } else {
        MAX_FONT_SIZE
    }
}

/// One point smaller, but no smaller than `MIN_FONT_SIZE`.
pub open spec fn spec_decreased(size: u32) -> u32 {
    if size - 1 > MIN_FONT_SIZE {
        (size - 1) as u32
    } else {
        MIN_FONT_SIZE
    }
}

/// `v` with a font one point larger, up to `MAX_FONT_SIZE`.
pub open spec fn spec_font_increased(v: EditorView) -> EditorView {
    EditorView { font_size: spec_increased(v.font_size), ..v }
}

/// `v` with a font one point smaller, down to `MIN_FONT_SIZE`.
pub open spec fn spec_font_decreased(v: EditorView) -> EditorView {
    EditorView { font_size: spec_decreased(v.font_size), ..v }
}

/// One change of the editor state, as the methods of `AppState` make them.
pub enum Step {
    /// A new, empty document.
    NewFile,
    /// A file was read: its path and content.
    Opened(Seq<char>, Seq<char>),
    /// The buffer was written to its own file.
    Saved,
    /// The buffer was written to this path.
    SavedAs(Seq<char>),
    /// The font was made one point larger.
    FontIncreased,
    /// The font was made one point smaller.
    FontDecreased,
    /// The text area changed the buffer.
    Edited,
    /// The appearance was set up.
    Configured,
    /// The gutter was shown or hidden.
    LineNumbersShown(bool),
    /// Word wrap was turned on or off.
    WordWrapped(bool),
    /// The About window was opened or closed.
    AboutShown(bool),
}

/// `v` after `step`.
pub open spec fn spec_step(v: EditorView, step: Step) -> EditorView {
    match step {
        Step::NewFile => spec_new_file(v),
        Step::Opened(path, content) => spec_opened(v, path, content),
        Step::Saved => spec_saved(v),
        Step::SavedAs(path) => spec_saved_as(v, path),
        Step::FontIncreased => spec_font_increased(v),
        Step::FontDecreased => spec_font_decreased(v),
        Step::Edited => spec_edited(v),
        Step::Configured => spec_configured(v),
        Step::LineNumbersShown(show) => EditorView { show_line_numbers: show, ..v },
        Step::WordWrapped(wrap) => EditorView { word_wrap: wrap, ..v },
        Step::AboutShown(show) => EditorView { show_about: show, ..v },
    }
}

/// `v` after each of `steps`, in order.
pub open spec fn spec_run(v: EditorView, steps: Seq<Step>) -> EditorView
    decreases steps.len(),
{
    if steps.len() == 0 {
        v
    } else {
        spec_step(spec_run(v, steps.drop_last()), steps.last())
    }
}

/// The change that `command` makes by itself; the file commands make none
/// until their file work is done.
pub open spec fn spec_command_step(command: Command) -> Option<Step> {
    match command {
        Command::NewFile => Some(Step::NewFile),
        Command::IncreaseFontSize => Some(Step::FontIncreased),
        Command::DecreaseFontSize => Some(Step::FontDecreased),
        Command::CloseAbout => Some(Step::AboutShown(false)),
        _ => None,
    }
}

/// The file work that `command` asks for, if any.
pub open spec fn spec_file_request(command: Command) -> Option<FileRequest> {
    match command {
        Command::OpenFile => Some(FileRequest::Open),
        Command::SaveFile => Some(FileRequest::Save),
        Command::SaveFileAs => Some(FileRequest::SaveAs),
        _ => None,
    }
}

/// File work that a command asks the caller to do: show a dialog, read or
/// write, and hand the outcome back to `open_file`, `finish_save` or
/// `save_file_as`.
#[derive(Clone, Copy, Debug, PartialEq, Eq, Structural)]
pub enum FileRequest {
    /// Ask for a file and read it (then `open_file`).
    Open,
    /// Write the buffer where `save_file` says (then `finish_save`, or Save As).
    Save,
    /// Ask for a path and write the buffer there (then `save_file_as`).
    SaveAs,
}

/// Where Save writes: `Some(path)` of the file the buffer belongs to, or
/// `None` when it belongs to none and Save asks for a path as Save As does.
pub open spec fn spec_save_target(v: EditorView) -> Option<Seq<char>> {
    v.file_path
}

/// The name shown for the document: the file name of its path in `style`, or
/// `Untitled` when it has no path or the path has no file name.
pub open spec fn spec_display_name(v: EditorView, style: PathStyle) -> Seq<char> {
    match v.file_path {
        Some(p) => match spec_file_name(p, style) {
            Some(n) => n,
            None => "Untitled"@,
        },
        None => "Untitled"@,
    }
}

/// The window title: `* ` when the buffer is dirty, then the document's
/// name, then ` - NoteRust`.
pub open spec fn spec_title(v: EditorView, style: PathStyle) -> Seq<char> {
    (if v.dirty {
        "* "@
    } else {
        Seq::empty()
    }) + spec_display_name(v, style) + " - NoteRust"@
}

/// The line reported when a file could not be read.
pub open spec fn open_failure_message(error: Seq<char>) -> Seq<char> {
    "Failed to open file: "@ + error
}

/// The line reported when a file could not be written.
pub open spec fn save_failure_message(error: Seq<char>) -> Seq<char> {
    "Failed to save file: "@ + error
}

/// What came of asking for a file and reading it.
#[derive(Debug)]
pub enum OpenOutcome {
    /// The file dialog was closed without a choice.
    Cancelled,
    /// The chosen file could not be read; the error's description.
    Failed(String),
    /// The chosen file and its content.
    Loaded { path: String, content: String },
}

/// What came of asking for a path and writing the buffer there.
#[derive(Debug)]
pub enum SaveAsOutcome {
    /// The file dialog was closed without a choice.
    Cancelled,
    /// The buffer could not be written; the error's description.
    Failed(String),
    /// The buffer was written to this path.
    Written(String),
}

/// Where Save writes the buffer.
#[derive(Debug)]
pub enum SavePlan {
    /// To the file that the buffer belongs to.
    WriteTo(String),
    /// To a path still to be asked for, as Save As does.
    AskForPath,
}

/// `prefix` followed by `error`.
fn message(prefix: &str, error: &str) -> (m: String)
    ensures
        m@ == prefix@ + error@,
{
    let mut m = String::new();
    m.append(prefix);
    m.append(error);
    assert(m@ =~= prefix@ + error@);
    m
}

impl Default for AppState {
    fn default() -> (s: Self)
        ensures
            s@ == spec_default(),
    {
        AppState {
            text: String::new(),
            file_path: None,
            dirty: false,
            show_line_numbers: true,
            word_wrap: true,
            font_size: DEFAULT_FONT_SIZE,
            show_about: false,
            fonts_initialized: false,
        }
    }
}

impl AppState {
    /// Starts a new document: empties the buffer, forgets its file and marks
    /// it clean. The settings stay.
    pub fn new_file(&mut self)
        ensures
            final(self)@ == spec_new_file(old(self)@),
    {
        self.text = String::new();
        self.file_path = None;
        self.dirty = false;
    }

    /// Takes in what came of asking for a file and reading it. A loaded file
    /// replaces the buffer, which then belongs to that file and is clean;
    /// otherwise nothing changes. Returns the line to report, if any.
    pub fn open_file(&mut self, outcome: OpenOutcome) -> (report: Option<String>)
        ensures
            match outcome {
                OpenOutcome::Loaded { path, content } => {
                    &&& final(self)@ == spec_opened(old(self)@, path@, content@)
                    &&& report is None
                },
                OpenOutcome::Failed(error) => {
                    &&& final(self)@ == old(self)@
                    &&& report matches Some(m) && m@ == open_failure_message(error@)
                },
                OpenOutcome::Cancelled => {
                    &&& final(self)@ == old(self)@
                    &&& report is None
                },
            },
    {
        match outcome {
            OpenOutcome::Loaded { path, content } => {
                self.text = content;
                self.file_path = Some(path);
                self.dirty = false;
                None
            },
            OpenOutcome::Failed(error) => Some(message("Failed to open file: ", error.as_str())),
            OpenOutcome::Cancelled => None,
        }
    }

    /// Where Save writes: to the buffer's file, or, when it has none, to a
    /// path that is asked for as Save As does.
    pub fn save_file(&self) -> (plan: SavePlan)
        ensures
            match plan {
                SavePlan::WriteTo(path) => spec_save_target(self@) == Some(path@),
                SavePlan::AskForPath => spec_save_target(self@) is None,
            },
    {
        match &self.file_path {
            Some(path) => SavePlan::WriteTo(path.clone()),
            None => SavePlan::AskForPath,
        }
    }

    /// Takes in what came of writing the buffer to its own file: on success
    /// the buffer is clean; on failure nothing changes. Returns the line to
    /// report, if any.
    pub fn finish_save(&mut self, written: Result<(), String>) -> (report: Option<String>)
        ensures
            match written {
                Ok(()) => {
                    &&& final(self)@ == spec_saved(old(self)@)
                    &&& report is None
                },
                Err(error) => {
                    &&& final(self)@ == old(self)@
                    &&& report matches Some(m) && m@ == save_failure_message(error@)
                },
            },
    {
        match written {
            Ok(()) => {
                self.dirty = false;
                None
            },
            Err(error) => Some(message("Failed to save file: ", error.as_str())),
        }
    }

    /// Takes in what came of asking for a path and writing the buffer there:
    /// once written, the buffer belongs to that path and is clean; otherwise
    /// nothing changes. Returns the line to report, if any.
    pub fn save_file_as(&mut self, outcome: SaveAsOutcome) -> (report: Option<String>)
        ensures
            match outcome {
                SaveAsOutcome::Written(path) => {
                    &&& final(self)@ == spec_saved_as(old(self)@, path@)
                    &&& report is None
                },
                SaveAsOutcome::Failed(error) => {
                    &&& final(self)@ == old(self)@
                    &&& report matches Some(m) && m@ == save_failure_message(error@)
                },
                SaveAsOutcome::Cancelled => {
                    &&& final(self)@ == old(self)@
                    &&& report is None
                },
            },
    {
        match outcome {
            SaveAsOutcome::Written(path) => {
                self.file_path = Some(path);
                self.dirty = false;
                None
            },
            SaveAsOutcome::Failed(error) => Some(message("Failed to save file: ", error.as_str())),
            SaveAsOutcome::Cancelled => None,
        }
    }

    /// The name of the document for the window title: the file name of its
    /// path in the platform's path `style`, or `Untitled`.
    pub fn file_name(&self, style: PathStyle) -> (name: &str)
        ensures
            name@ == spec_display_name(self@, style),
    {
        match &self.file_path {
            Some(path) => match file_name(path.as_str(), style) {
                Some(name) => name,
                None => "Untitled",
            },
            None => "Untitled",
        }
    }

    /// Makes the font one point larger, up to `MAX_FONT_SIZE`.
    pub fn increase_font_size(&mut self)
        ensures
            final(self)@ == spec_font_increased(old(self)@),
    {
        if self.font_size < MAX_FONT_SIZE - 1 {
            self.font_size = self.font_size + 1;
        } else {
            self.font_size = MAX_FONT_SIZE;
        }
    }

    /// Makes the font one point smaller, down to `MIN_FONT_SIZE`.
    pub fn decrease_font_size(&mut self)
        ensures
            final(self)@ == spec_font_decreased(old(self)@),
    {
        if self.font_size > MIN_FONT_SIZE + 1 {
            self.font_size = self.font_size - 1;
        } else {
            self.font_size = MIN_FONT_SIZE;
        }
    }

    /// Whether the appearance (fonts and colours) is to be set up now: true
    /// the first time only. Afterwards the appearance counts as set up.
    pub fn configure_appearance(&mut self) -> (first_time: bool)
        ensures
            first_time == !old(self)@.appearance_configured,
            final(self)@ == spec_configured(old(self)@),
    {
        if self.fonts_initialized {
            return false;
        }
        self.fonts_initialized = true;
        true
    }

    /// Records that the text area changed the buffer.
    pub fn mark_dirty(&mut self)
        ensures
            final(self)@ == spec_edited(old(self)@),
    {
        self.dirty = true;
    }

    /// The window title: `* ` when the buffer is dirty, the document's name,
    /// and ` - NoteRust`.
    pub fn window_title(&self, style: PathStyle) -> (title: String)
        ensures
            title@ == spec_title(self@, style),
    {
        let mut title = String::new();
        if self.dirty {
            title.append("* ");
        }
        let name = self.file_name(style);
        title.append(name);
        title.append(" - NoteRust");
        assert(title@ =~= spec_title(self@, style));
        title
    }

    /// Runs `command`: New and the font and About commands change the state
    /// here; the file commands change nothing yet and return the file work
    /// that the caller is to do.
    pub fn run_command(&mut self, command: Command) -> (request: Option<FileRequest>)
        ensures
            final(self)@ == match spec_command_step(command) {
                Some(step) => spec_step(old(self)@, step),
                None => old(self)@,
            },
            request == spec_file_request(command),
    {
        match command {
            Command::NewFile => {
                self.new_file();
                None
            },
            Command::OpenFile => Some(FileRequest::Open),
            Command::SaveFile => Some(FileRequest::Save),
            Command::SaveFileAs => Some(FileRequest::SaveAs),
            Command::IncreaseFontSize => {
                self.increase_font_size();
                None
            },
            Command::DecreaseFontSize => {
                self.decrease_font_size();
                None
            },
            Command::CloseAbout => {
                self.set_show_about(false);
                None
            },
        }
    }

    /// Shows or hides the line-number gutter.
    pub fn set_show_line_numbers(&mut self, show: bool)
        ensures
            final(self)@ == spec_step(old(self)@, Step::LineNumbersShown(show)),
    {
        self.show_line_numbers = show;
    }

    /// Turns word wrap on or off.
    pub fn set_word_wrap(&mut self, wrap: bool)
        ensures
            final(self)@ == spec_step(old(self)@, Step::WordWrapped(wrap)),
    {
        self.word_wrap = wrap;
    }

    /// Opens or closes the About window.
    pub fn set_show_about(&mut self, show: bool)
        ensures
            final(self)@ == spec_step(old(self)@, Step::AboutShown(show)),
    {
        self.show_about = show;
    }

    /// The buffer.
    pub fn text(&self) -> (text: &str)
        ensures
            text@ == self@.text,
    {
        self.text.as_str()
    }

    /// The path of the file that the buffer belongs to, if any.
    pub fn file_path(&self) -> (path: Option<&str>)
        ensures
            match path {
                Some(p) => self@.file_path == Some(p@),
                None => self@.file_path is None,
            },
    {
        match &self.file_path {
            Some(p) => Some(p.as_str()),
            None => None,
        }
    }

    /// Whether the buffer changed since it was last opened or saved.
    pub fn dirty(&self) -> (dirty: bool)
        ensures
            dirty == self@.dirty,
    {
        self.dirty
    }

    /// Whether the line-number gutter is shown.
    pub fn show_line_numbers(&self) -> (show: bool)
        ensures
            show == self@.show_line_numbers,
    {
        self.show_line_numbers
    }

    /// Whether long lines wrap.
    pub fn word_wrap(&self) -> (wrap: bool)
        ensures
            wrap == self@.word_wrap,
    {
        self.word_wrap
    }

    /// The editor font size, in points.
    pub fn font_size(&self) -> (size: u32)
        ensures
            size == self@.font_size,
    {
        self.font_size
    }

    /// Whether the About window is open.
    pub fn show_about(&self) -> (show: bool)
        ensures
            show == self@.show_about,
    {
        self.show_about
    }
}

} // verus!
