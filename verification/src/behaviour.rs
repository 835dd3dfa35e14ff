//! What each operation does, stated from its inputs and results: the values
//! that the commands, shortcuts, titles and gutter must give, over all inputs.
use vstd::prelude::*;

use crate::path::{
    after_last_separator, is_drive_letter, is_separator, prefix_len, spec_file_name,
    trim_trailing, PathStyle,
};
use crate::shortcuts::{
    spec_edit_request, spec_shortcut, spec_shortcuts, Command, EditAction, EditRequest, Key, KeyEvent, Modifiers,
    Shortcut,
};
use crate::state::{
    open_failure_message, save_failure_message, spec_command_step, spec_configured,
    spec_decreased, spec_default, spec_display_name, spec_edited, spec_file_request,
    spec_increased, spec_new_file, spec_opened, spec_save_target, spec_saved, spec_saved_as,
    spec_step, spec_title, EditorView, FileRequest, Step,
};
use crate::text::{
    count_newlines, spec_decimal, spec_gutter_digits, spec_line_count, spec_lines, spec_pad_left,
};

verus! {

// ---------------------------------------------------------------------------
// Keyboard shortcuts
// ---------------------------------------------------------------------------

/// The shortcut of a Ctrl key press: `command`, consuming `key` with the
/// given modifiers.
pub open spec fn expected_ctrl_shortcut(key: Key, shift: bool) -> Option<Shortcut> {
    let ctrl_only = Modifiers { ctrl: true, shift: false, command: false };
    match key {
        Key::N => Some(Shortcut { command: Command::NewFile, consume_modifiers: ctrl_only, consume_key: Key::N }),
        Key::O => Some(Shortcut { command: Command::OpenFile, consume_modifiers: ctrl_only, consume_key: Key::O }),
        Key::S => if shift {
            Some(
                Shortcut {
                    command: Command::SaveFileAs,
                    consume_modifiers: Modifiers { ctrl: true, shift: true, command: false },
                    consume_key: Key::S,
                },
            )
        } else {
            Some(Shortcut { command: Command::SaveFile, consume_modifiers: ctrl_only, consume_key: Key::S })
        },
        Key::Plus => Some(
            Shortcut {
                command: Command::IncreaseFontSize,
                consume_modifiers: ctrl_only,
                consume_key: Key::Plus,
            },
        ),
        Key::Equals => Some(
            Shortcut {
                command: Command::IncreaseFontSize,
                consume_modifiers: ctrl_only,
                consume_key: Key::Equals,
            },
        ),
        Key::Minus => Some(
            Shortcut {
                command: Command::DecreaseFontSize,
                consume_modifiers: ctrl_only,
                consume_key: Key::Minus,
            },
        ),
        _ => None,
    }
}

/// Every Ctrl key press gives its shortcut whether or not the About window
/// is open: Ctrl+N new, Ctrl+O open, Ctrl+S save, Ctrl+Shift+S save as,
/// Ctrl++ and Ctrl+= larger font, Ctrl+- smaller font, consuming Ctrl (and
/// Shift for save as) with the key; other Ctrl keys give none.
pub proof fn lemma_ctrl_shortcuts(event: KeyEvent, about_open: bool)
    requires
        event.pressed,
        event.modifiers.ctrl,
        event.key != Key::Escape,
    ensures
        spec_shortcut(event, about_open) == expected_ctrl_shortcut(
            event.key,
            event.modifiers.shift,
        ),
        spec_shortcut(event, about_open) == spec_shortcut(event, !about_open),
{
}

/// A released key, or a key pressed without Ctrl other than Escape, is no
/// shortcut.
pub proof fn lemma_no_shortcut_without_ctrl(event: KeyEvent, about_open: bool)
    requires
        !event.pressed || (!event.modifiers.ctrl && event.key != Key::Escape),
    ensures
        spec_shortcut(event, about_open) is None,
{
}

/// Escape pressed closes the About window when it is open, consuming the
/// press as it came, and does nothing when it is closed.
pub proof fn lemma_escape_closes_about(event: KeyEvent, about_open: bool)
    requires
        event.pressed,
        event.key == Key::Escape,
    ensures
        about_open ==> spec_shortcut(event, about_open) == Some(
            Shortcut {
                command: Command::CloseAbout,
                consume_modifiers: event.modifiers,
                consume_key: Key::Escape,
            },
        ),
        !about_open ==> spec_shortcut(event, about_open) is None,
{
}

/// The Edit menu: cut, copy and paste are clipboard requests; undo, redo and
/// select all are Cmd+Z, Cmd+Y and Cmd+A; delete is the Delete key alone.
pub proof fn lemma_edit_requests()
    ensures
        spec_edit_request(EditAction::Cut) == EditRequest::Cut,
        spec_edit_request(EditAction::Copy) == EditRequest::Copy,
        spec_edit_request(EditAction::Paste) == EditRequest::Paste,
        spec_edit_request(EditAction::Undo) == EditRequest::Press(
            KeyEvent {
                key: Key::Z,
                pressed: true,
                modifiers: Modifiers { ctrl: false, shift: false, command: true },
            },
        ),
        spec_edit_request(EditAction::Redo) == EditRequest::Press(
            KeyEvent {
                key: Key::Y,
                pressed: true,
                modifiers: Modifiers { ctrl: false, shift: false, command: true },
            },
        ),
        spec_edit_request(EditAction::SelectAll) == EditRequest::Press(
            KeyEvent {
                key: Key::A,
                pressed: true,
                modifiers: Modifiers { ctrl: false, shift: false, command: true },
            },
        ),
        spec_edit_request(EditAction::Delete) == EditRequest::Press(
            KeyEvent {
                key: Key::Delete,
                pressed: true,
                modifiers: Modifiers { ctrl: false, shift: false, command: false },
            },
        ),
{
}

// ---------------------------------------------------------------------------
// Commands and the state
// ---------------------------------------------------------------------------

/// The settings of `a` and `b` agree.
pub open spec fn same_settings(a: EditorView, b: EditorView) -> bool {
    &&& a.show_line_numbers == b.show_line_numbers
    &&& a.word_wrap == b.word_wrap
    &&& a.font_size == b.font_size
    &&& a.show_about == b.show_about
    &&& a.appearance_configured == b.appearance_configured
}

/// New leaves an empty, untitled, clean buffer and the settings as they were.
pub proof fn lemma_new_file_effect(v: EditorView)
    ensures
        spec_new_file(v).text.len() == 0,
        spec_new_file(v).file_path is None,
        !spec_new_file(v).dirty,
        same_settings(spec_new_file(v), v),
{
}

/// After a file is loaded the buffer is exactly the content read, belongs to
/// the file's path and is clean; the settings are as they were.
pub proof fn lemma_opened_effect(v: EditorView, path: Seq<char>, content: Seq<char>)
    ensures
        spec_opened(v, path, content).text == content,
        spec_opened(v, path, content).file_path == Some(path),
        !spec_opened(v, path, content).dirty,
        same_settings(spec_opened(v, path, content), v),
{
}

/// Saving keeps the buffer and its path and makes it clean; Save As keeps
/// the buffer and makes it belong, clean, to the new path; an edit keeps
/// buffer and path and makes it dirty. None of them touches the settings.
pub proof fn lemma_save_and_edit_effects(v: EditorView, path: Seq<char>)
    ensures
        spec_saved(v).text == v.text,
        spec_saved(v).file_path == v.file_path,
        !spec_saved(v).dirty,
        same_settings(spec_saved(v), v),
        spec_saved_as(v, path).text == v.text,
        spec_saved_as(v, path).file_path == Some(path),
        !spec_saved_as(v, path).dirty,
        same_settings(spec_saved_as(v, path), v),
        spec_edited(v).text == v.text,
        spec_edited(v).file_path == v.file_path,
        spec_edited(v).dirty,
        same_settings(spec_edited(v), v),
{
}

/// Save writes to the document's own file whenever it has one, whatever the
/// buffer holds and whether it changed; it asks for a path only when the
/// document has none.
pub proof fn lemma_save_target_is_own_file(v: EditorView)
    ensures
        spec_save_target(v) == v.file_path,
{
}

/// Setting up the appearance changes nothing but the record that it was set up.
pub proof fn lemma_configured_effect(v: EditorView)
    ensures
        spec_configured(v).appearance_configured,
        spec_configured(v).text == v.text,
        spec_configured(v).file_path == v.file_path,
        spec_configured(v).dirty == v.dirty,
        spec_configured(v).font_size == v.font_size,
        spec_configured(v).show_line_numbers == v.show_line_numbers,
        spec_configured(v).word_wrap == v.word_wrap,
        spec_configured(v).show_about == v.show_about,
{
}

/// Making the font larger gives one point more, capped at 32; making it
/// smaller gives one point less, floored at 8.
pub proof fn lemma_font_steps(size: u32)
    ensures
        size + 1 <= 32 ==> spec_increased(size) == size + 1,
        size + 1 > 32 ==> spec_increased(size) == 32,
        size - 1 >= 8 ==> spec_decreased(size) == size - 1,
        size - 1 < 8 ==> spec_decreased(size) == 8,
{
}

/// What each command does by itself: New empties the document, the font
/// commands step the size, Close About closes the window; Open, Save and
/// Save As change nothing yet and ask for their file work.
pub proof fn lemma_command_effects(v: EditorView)
    ensures
        spec_command_step(Command::NewFile) == Some(Step::NewFile),
        spec_file_request(Command::NewFile) is None,
        spec_command_step(Command::IncreaseFontSize) == Some(Step::FontIncreased),
        spec_step(v, Step::FontIncreased).font_size == spec_increased(v.font_size),
        spec_file_request(Command::IncreaseFontSize) is None,
        spec_command_step(Command::DecreaseFontSize) == Some(Step::FontDecreased),
        spec_step(v, Step::FontDecreased).font_size == spec_decreased(v.font_size),
        spec_file_request(Command::DecreaseFontSize) is None,
        spec_command_step(Command::CloseAbout) == Some(Step::AboutShown(false)),
        !spec_step(v, Step::AboutShown(false)).show_about,
        spec_file_request(Command::CloseAbout) is None,
        spec_command_step(Command::OpenFile) is None,
        spec_file_request(Command::OpenFile) == Some(FileRequest::Open),
        spec_command_step(Command::SaveFile) is None,
        spec_file_request(Command::SaveFile) == Some(FileRequest::Save),
        spec_command_step(Command::SaveFileAs) is None,
        spec_file_request(Command::SaveFileAs) == Some(FileRequest::SaveAs),
        spec_step(v, Step::NewFile) == spec_new_file(v),
{
}

// ---------------------------------------------------------------------------
// Window title
// ---------------------------------------------------------------------------

/// A document without a path is named `Untitled`, whatever its buffer holds,
/// and its title is `Untitled - NoteRust`, after `* ` when it is dirty.
pub proof fn lemma_untitled_without_path(v: EditorView, style: PathStyle)
    requires
        v.file_path is None,
    ensures
        spec_display_name(v, style) == "Untitled"@,
        v.dirty ==> spec_title(v, style) == "* "@ + "Untitled"@ + " - NoteRust"@,
        !v.dirty ==> spec_title(v, style) == "Untitled"@ + " - NoteRust"@,
{
    assert(v.dirty ==> spec_title(v, style) =~= "* "@ + "Untitled"@ + " - NoteRust"@);
    assert(!v.dirty ==> spec_title(v, style) =~= "Untitled"@ + " - NoteRust"@);
}

/// A document whose path has a file name is named by it; one whose path
/// has none is named `Untitled`.
pub proof fn lemma_display_name_of_path(v: EditorView, style: PathStyle)
    requires
        v.file_path is Some,
    ensures
        spec_file_name(v.file_path->0, style) matches Some(n) ==> spec_display_name(v, style)
            == n,
        spec_file_name(v.file_path->0, style) is None ==> spec_display_name(v, style)
            == "Untitled"@,
{
}

/// The title is the dirty marker, the name and ` - NoteRust`, whatever the
/// buffer holds.
pub proof fn lemma_title_parts(v: EditorView, style: PathStyle)
    ensures
        v.dirty ==> spec_title(v, style) == "* "@ + spec_display_name(v, style) + " - NoteRust"@,
        !v.dirty ==> spec_title(v, style) == spec_display_name(v, style) + " - NoteRust"@,
{
    assert(!v.dirty ==> spec_title(v, style) =~= spec_display_name(v, style) + " - NoteRust"@);
}

// ---------------------------------------------------------------------------
// File names
// ---------------------------------------------------------------------------

/// A file name is never empty, holds no separator, and is neither `.` nor `..`.
pub proof fn lemma_file_name_is_a_name(path: Seq<char>, style: PathStyle)
    ensures
        spec_file_name(path, style) matches Some(n) ==> {
            &&& n.len() > 0
            &&& forall|i: int| 0 <= i < n.len() ==> !is_separator(#[trigger] n[i], style)
            &&& n != seq!['.']
            &&& n != seq!['.', '.']
        },
{
    let body = path.skip(prefix_len(path, style) as int);
    let t = trim_trailing(body, style);
    lemma_after_last_separator_has_no_separator(t, style);
}

/// The text after the last separator holds no separator.
proof fn lemma_after_last_separator_has_no_separator(s: Seq<char>, style: PathStyle)
    ensures
        forall|i: int|
            0 <= i < after_last_separator(s, style).len() ==> !is_separator(
                #[trigger] after_last_separator(s, style)[i],
                style,
            ),
    decreases s.len(),
{
    if s.len() > 0 && !is_separator(s.last(), style) {
        lemma_after_last_separator_has_no_separator(s.drop_last(), style);
        let a = after_last_separator(s.drop_last(), style);
        assert forall|i: int| 0 <= i < a.push(s.last()).len() implies !is_separator(
            #[trigger] a.push(s.last())[i],
            style,
        ) by {
            if i < a.len() {
                assert(a.push(s.last())[i] == a[i]);
            }
        }
    }
}

// ---------------------------------------------------------------------------
// Lines and the gutter
// ---------------------------------------------------------------------------

/// The lines of a text, one character at a time: an empty text has none; a
/// character after nothing or after a `\n` starts a new line; any other
/// character continues the last line.
pub proof fn lemma_lines_by_character(s: Seq<char>, c: char)
    ensures
        spec_lines(Seq::empty()) == 0,
        (s.len() == 0 || s.last() == '\n') ==> spec_lines(s.push(c)) == spec_lines(s) + 1,
        (s.len() > 0 && s.last() != '\n') ==> spec_lines(s.push(c)) == spec_lines(s),
{
    assert(s.push(c).drop_last() =~= s);
    if s.len() == 0 {
        assert(count_newlines(s) == 0);
    }
}

/// The gutter numbers at least one line, and exactly the lines of a text that has some.
pub proof fn lemma_line_count(s: Seq<char>)
    ensures
        spec_line_count(s) >= 1,
        spec_lines(s) > 0 ==> spec_line_count(s) == spec_lines(s),
        spec_lines(s) == 0 ==> spec_line_count(s) == 1,
{
}

/// The value of a string of decimal digits.
pub open spec fn decimal_value(s: Seq<char>) -> int
    decreases s.len(),
{
    if s.len() == 0 {
        0
    } else {
        decimal_value(s.drop_last()) * 10 + ((s.last() as int) - 48)
    }
}

/// The decimal representation of `n` is made of the digits `0` to `9`, has
/// no leading zero (unless it is `0`), and reads back as `n`.
pub proof fn lemma_decimal_reads_back(n: nat)
    ensures
        spec_decimal(n).len() >= 1,
        forall|i: int|
            0 <= i < spec_decimal(n).len() ==> 48 <= (#[trigger] spec_decimal(n)[i] as int) <= 57,
        n > 0 ==> spec_decimal(n)[0] != '0',
        n == 0 ==> spec_decimal(n) == seq!['0'],
        decimal_value(spec_decimal(n)) == n,
    decreases n,
{
    let d = spec_decimal(n);
    if n < 10 {
        assert(((n + 48) as char) as int == n + 48);
        assert(d.drop_last() =~= Seq::<char>::empty());
        assert(decimal_value(d) == decimal_value(d.drop_last()) * 10 + ((d.last() as int) - 48));
        assert(decimal_value(d.drop_last()) == 0);
        if n == 0 {
            assert(d =~= seq!['0']);
        } else {
            assert('0' as int == 48);
        }
    } else {
        lemma_decimal_reads_back(n / 10);
        let r = n % 10;
        assert(((r + 48) as char) as int == r + 48);
        let p = spec_decimal(n / 10);
        assert(d.drop_last() =~= p);
        assert forall|i: int| 0 <= i < d.len() implies 48 <= (#[trigger] d[i] as int) <= 57 by {
            if i < p.len() {
                assert(d[i] == p[i]);
            }
        }
        assert(d[0] == p[0]);
        assert(n / 10 > 0);
        assert(d.last() == ((r + 48) as char));
        assert(decimal_value(d) == decimal_value(p) * 10 + ((d.last() as int) - 48));
        assert(decimal_value(d) == (n / 10) * 10 + r);
        assert((n / 10) * 10 + n % 10 == n) by (nonlinear_arith);
    }
}

/// A gutter label is the number right-aligned in the field: as long as the
/// field or the number, whichever is longer, the number at its end and
/// spaces before it.
pub proof fn lemma_pad_left(s: Seq<char>, width: nat)
    ensures
        spec_pad_left(s, width).len() == if s.len() < width {
            width
        } else {
            s.len()
        },
        spec_pad_left(s, width).skip(spec_pad_left(s, width).len() - s.len()) == s,
        forall|i: int|
            0 <= i < spec_pad_left(s, width).len() - s.len() ==> #[trigger] spec_pad_left(
                s,
                width,
            )[i] == ' ',
{
    let p = spec_pad_left(s, width);
    assert(p.skip(p.len() - s.len()) =~= s);
}

/// The gutter is as wide as the largest line number, and at least three digits.
pub proof fn lemma_gutter_digits(line_count: nat)
    ensures
        spec_gutter_digits(line_count) >= 3,
        spec_gutter_digits(line_count) >= spec_decimal(line_count).len(),
        spec_gutter_digits(line_count) > 3 ==> spec_gutter_digits(line_count)
            == spec_decimal(line_count).len(),
{
}

// ---------------------------------------------------------------------------
// More on shortcuts, state steps, messages and file names
// ---------------------------------------------------------------------------

/// The shortcuts of no events are none, and those of one event are its own
/// shortcut, if it has one.
pub proof fn lemma_shortcuts_of_one(event: KeyEvent, about_open: bool)
    ensures
        spec_shortcuts(Seq::empty(), about_open).len() == 0,
        spec_shortcut(event, about_open) matches Some(s) ==> spec_shortcuts(
            seq![event],
            about_open,
        ) == seq![s],
        spec_shortcut(event, about_open) is None ==> spec_shortcuts(seq![event], about_open).len()
            == 0,
{
    let one = seq![event];
    assert(one.drop_last() =~= Seq::<KeyEvent>::empty());
    assert(one.last() == event);
    assert(spec_shortcuts(one.drop_last(), about_open) =~= Seq::<Shortcut>::empty());
    if let Some(s) = spec_shortcut(event, about_open) {
        assert(spec_shortcuts(seq![event], about_open) =~= seq![s]);
    }
}

/// A new editor: empty untitled clean buffer, line numbers and word wrap on,
/// a 14-point font, the About window closed, the appearance not set up.
pub proof fn lemma_default_state()
    ensures
        spec_default().text.len() == 0,
        spec_default().file_path is None,
        !spec_default().dirty,
        spec_default().show_line_numbers,
        spec_default().word_wrap,
        spec_default().font_size == 14,
        !spec_default().show_about,
        !spec_default().appearance_configured,
{
}

/// Each step changes only what it is about: the font steps only the font
/// size, the setting steps only their setting, and none of these touches
/// the buffer, its path or whether it is dirty.
pub proof fn lemma_steps_change_only_their_part(v: EditorView, b: bool)
    ensures
        ({
            let w = spec_step(v, Step::FontIncreased);
            &&& w.font_size == spec_increased(v.font_size)
            &&& w.text == v.text && w.file_path == v.file_path && w.dirty == v.dirty
            &&& w.show_line_numbers == v.show_line_numbers && w.word_wrap == v.word_wrap
            &&& w.show_about == v.show_about
            &&& w.appearance_configured == v.appearance_configured
        }),
        ({
            let w = spec_step(v, Step::FontDecreased);
            &&& w.font_size == spec_decreased(v.font_size)
            &&& w.text == v.text && w.file_path == v.file_path && w.dirty == v.dirty
            &&& w.show_line_numbers == v.show_line_numbers && w.word_wrap == v.word_wrap
            &&& w.show_about == v.show_about
            &&& w.appearance_configured == v.appearance_configured
        }),
        ({
            let w = spec_step(v, Step::LineNumbersShown(b));
            &&& w.show_line_numbers == b
            &&& w.text == v.text && w.file_path == v.file_path && w.dirty == v.dirty
            &&& w.font_size == v.font_size && w.word_wrap == v.word_wrap
            &&& w.show_about == v.show_about
            &&& w.appearance_configured == v.appearance_configured
        }),
        ({
            let w = spec_step(v, Step::WordWrapped(b));
            &&& w.word_wrap == b
            &&& w.text == v.text && w.file_path == v.file_path && w.dirty == v.dirty
            &&& w.font_size == v.font_size && w.show_line_numbers == v.show_line_numbers
            &&& w.show_about == v.show_about
            &&& w.appearance_configured == v.appearance_configured
        }),
        ({
            let w = spec_step(v, Step::AboutShown(b));
            &&& w.show_about == b
            &&& w.text == v.text && w.file_path == v.file_path && w.dirty == v.dirty
            &&& w.font_size == v.font_size && w.show_line_numbers == v.show_line_numbers
            &&& w.word_wrap == v.word_wrap
            &&& w.appearance_configured == v.appearance_configured
        }),
        spec_step(v, Step::Edited) == spec_edited(v),
        spec_step(v, Step::Saved) == spec_saved(v),
        spec_step(v, Step::Configured) == spec_configured(v),
{
}

/// The steps that come of file work are those of the file operations.
pub proof fn lemma_file_steps(v: EditorView, path: Seq<char>, content: Seq<char>)
    ensures
        spec_step(v, Step::Opened(path, content)) == spec_opened(v, path, content),
        spec_step(v, Step::SavedAs(path)) == spec_saved_as(v, path),
{
}

/// A failure is reported as `Failed to open file: ` or `Failed to save file: `
/// followed by the error's description.
pub proof fn lemma_failure_messages(error: Seq<char>)
    ensures
        open_failure_message(error) == "Failed to open file: "@ + error,
        save_failure_message(error) == "Failed to save file: "@ + error,
{
}

/// A name with no separator and no drive prefix is its own file name.
pub proof fn lemma_plain_name_is_own_name(name: Seq<char>, style: PathStyle)
    requires
        name.len() > 0,
        forall|i: int| 0 <= i < name.len() ==> !is_separator(#[trigger] name[i], style),
        name != seq!['.'],
        name != seq!['.', '.'],
        prefix_len(name, style) == 0,
    ensures
        spec_file_name(name, style) == Some(name),
{
    lemma_after_last_separator_whole(name, style);
    assert(name.skip(0) =~= name);
    assert(!is_separator(name.last(), style)) by {
        assert(name.last() == name[name.len() - 1]);
    }
    if name.len() >= 2 {
        assert(!is_separator(name[name.len() - 2], style));
    } else {
        assert(name =~= seq![name[0]]);
        assert(name[0] != '.');
    }
}

/// A text without separators is all after its last separator.
proof fn lemma_after_last_separator_whole(s: Seq<char>, style: PathStyle)
    requires
        forall|i: int| 0 <= i < s.len() ==> !is_separator(#[trigger] s[i], style),
    ensures
        after_last_separator(s, style) == s,
    decreases s.len(),
{
    if s.len() > 0 {
        assert forall|i: int| 0 <= i < s.drop_last().len() implies !is_separator(
            #[trigger] s.drop_last()[i],
            style,
        ) by {
            assert(s.drop_last()[i] == s[i]);
        }
        lemma_after_last_separator_whole(s.drop_last(), style);
        assert(!is_separator(s.last(), style)) by {
            assert(s.last() == s[s.len() - 1]);
        }
        assert(s.drop_last().push(s.last()) =~= s);
    }
}

/// On Windows a drive alone has no file name, and a name right after a drive
/// (`C:notes.txt`) or after a backslash is the file name.
pub proof fn lemma_windows_file_names(drive: char, dir: Seq<char>, name: Seq<char>)
    requires
        is_drive_letter(drive),
        name.len() > 0,
        forall|i: int| 0 <= i < name.len() ==> !is_separator(#[trigger] name[i], PathStyle::Windows),
        name != seq!['.'],
        name != seq!['.', '.'],
    ensures
        spec_file_name(seq![drive, ':'], PathStyle::Windows) is None,
        spec_file_name(seq![drive, ':'] + name, PathStyle::Windows) == Some(name),
        spec_file_name(dir + seq!['\\'] + name, PathStyle::Windows) == Some(name),
{
    let w = PathStyle::Windows;
    let d = seq![drive, ':'];
    assert(prefix_len(d, w) == 2);
    assert(d.skip(2) =~= Seq::<char>::empty());
    let p = d + name;
    assert(p[0] == drive && p[1] == ':');
    assert(prefix_len(p, w) == 2);
    assert(p.skip(2) =~= name);
    lemma_after_last_separator_whole(name, w);
    assert(!is_separator(name.last(), w)) by {
        assert(name.last() == name[name.len() - 1]);
    }
    if name.len() >= 2 {
        assert(!is_separator(name[name.len() - 2], w));
    } else {
        assert(name =~= seq![name[0]]);
        assert(name[0] != '.');
    }
    assert(trim_trailing(name, w) == name);
    lemma_windows_child(dir, name);
}

/// On Windows the file name of `dir\name` is `name`.
proof fn lemma_windows_child(dir: Seq<char>, name: Seq<char>)
    requires
        name.len() > 0,
        forall|i: int| 0 <= i < name.len() ==> !is_separator(#[trigger] name[i], PathStyle::Windows),
        name != seq!['.'],
        name != seq!['.', '.'],
    ensures
        spec_file_name(dir + seq!['\\'] + name, PathStyle::Windows) == Some(name),
{
    let w = PathStyle::Windows;
    let p = dir + seq!['\\'] + name;
    let k = prefix_len(p, w) as int;
    if dir.len() < 2 {
        if dir.len() == 0 {
            assert(p[0] == '\\');
        } else {
            assert(p[1] == '\\');
        }
        assert(k == 0);
    }
    let dd = dir.skip(k);
    let body = p.skip(k);
    assert(body =~= dd + seq!['\\'] + name);
    assert(body.last() == name[name.len() - 1]);
    if name.len() >= 2 {
        assert(body[body.len() - 2] == name[name.len() - 2]);
    } else {
        assert(name =~= seq![name[0]]);
        assert(name[0] != '.');
    }
    assert(trim_trailing(body, w) == body);
    lemma_after_last_separator_of_backslash_child(dd, name);
}

/// The text after the last separator of `dir\name` is `name`.
proof fn lemma_after_last_separator_of_backslash_child(dir: Seq<char>, name: Seq<char>)
    requires
        forall|i: int| 0 <= i < name.len() ==> !is_separator(#[trigger] name[i], PathStyle::Windows),
    ensures
        after_last_separator(dir + seq!['\\'] + name, PathStyle::Windows) == name,
    decreases name.len(),
{
    let w = PathStyle::Windows;
    let p = dir + seq!['\\'] + name;
    if name.len() == 0 {
        assert(p.last() == '\\');
        assert(after_last_separator(p, w) =~= name);
    } else {
        assert(p.drop_last() =~= dir + seq!['\\'] + name.drop_last());
        assert forall|i: int| 0 <= i < name.drop_last().len() implies !is_separator(
            #[trigger] name.drop_last()[i],
            w,
        ) by {
            assert(name.drop_last()[i] == name[i]);
        }
        lemma_after_last_separator_of_backslash_child(dir, name.drop_last());
        assert(p.last() == name[name.len() - 1]);
        assert(after_last_separator(p, w) =~= name);
    }
}

/// A trailing `/.` does not change a file name.
pub proof fn lemma_file_name_ignores_trailing_dot(path: Seq<char>, style: PathStyle)
    ensures
        spec_file_name(path + seq!['/', '.'], style) == spec_file_name(path, style),
{
    let q = path + seq!['/', '.'];
    let k = prefix_len(path, style) as int;
    if path.len() >= 2 {
        assert(q[0] == path[0] && q[1] == path[1]);
    } else if path.len() == 1 {
        assert(q[1] == '/');
    } else {
        assert(q[0] == '/');
    }
    assert(prefix_len(q, style) == k);
    let b = q.skip(k);
    assert(b =~= path.skip(k) + seq!['/', '.']);
    assert(b.last() == '.');
    assert(b[b.len() - 2] == '/');
    assert(b.take(b.len() - 2) =~= path.skip(k));
}

} // verus!
