//! Properties of the editor that span several commands.
use vstd::prelude::*;

use crate::path::{
    after_last_separator, is_separator, prefix_len, spec_file_name, trim_trailing, PathStyle,
};
use crate::shortcuts::{
    spec_edit_request, spec_shortcut, spec_shortcuts, EditAction, EditRequest, KeyEvent,
};
use crate::state::{
    spec_configured, spec_decreased, spec_display_name, spec_edited, spec_increased,
    spec_new_file, spec_opened, spec_save_target, spec_saved, spec_saved_as, spec_title,
    spec_run, spec_step, EditorView, Step, MAX_FONT_SIZE, MIN_FONT_SIZE,
};
use crate::text::{spec_decimal, spec_gutter_digits, spec_pad_left};

verus! {

/// A name that can be the last component of a path in `style`: not empty,
/// free of separators, and neither `.` nor `..`.
pub open spec fn is_plain_name(name: Seq<char>, style: PathStyle) -> bool {
    &&& name.len() > 0
    &&& forall|i: int| 0 <= i < name.len() ==> !is_separator(#[trigger] name[i], style)
    &&& name != seq!['.']
    &&& name != seq!['.', '.']
}

/// The font commands never go above `MAX_FONT_SIZE` nor below
/// `MIN_FONT_SIZE`, whatever size they start from.
pub proof fn lemma_font_size_bounded(size: u32)
    ensures
        spec_increased(size) <= MAX_FONT_SIZE,
        spec_decreased(size) >= MIN_FONT_SIZE,
{
}

/// A font size between `MIN_FONT_SIZE` and `MAX_FONT_SIZE` stays between
/// them under both font commands.
pub proof fn lemma_font_size_range_kept(size: u32)
    requires
        MIN_FONT_SIZE <= size <= MAX_FONT_SIZE,
    ensures
        MIN_FONT_SIZE <= spec_increased(size) <= MAX_FONT_SIZE,
        MIN_FONT_SIZE <= spec_decreased(size) <= MAX_FONT_SIZE,
{
}

/// Below the largest size, making the font smaller undoes making it larger.
pub proof fn lemma_decrease_undoes_increase(size: u32)
    requires
        MIN_FONT_SIZE <= size < MAX_FONT_SIZE,
    ensures
        spec_decreased(spec_increased(size)) == size,
{
}

/// Above the smallest size, making the font larger undoes making it smaller.
pub proof fn lemma_increase_undoes_decrease(size: u32)
    requires
        MIN_FONT_SIZE < size <= MAX_FONT_SIZE,
    ensures
        spec_increased(spec_decreased(size)) == size,
{
}

/// Save writes to the file last opened or saved as, and asks for a path
/// after New.
pub proof fn lemma_save_target(v: EditorView, path: Seq<char>, content: Seq<char>)
    ensures
        spec_save_target(spec_opened(v, path, content)) == Some(path),
        spec_save_target(spec_saved_as(v, path)) == Some(path),
        spec_save_target(spec_new_file(v)) is None,
{
}

/// A document with unsaved changes has `* ` before its title; saving, opening,
/// Save As and New leave a clean document, whose title is its name followed
/// by ` - NoteRust`.
pub proof fn lemma_dirty_marker(
    v: EditorView,
    path: Seq<char>,
    content: Seq<char>,
    style: PathStyle,
)
    ensures
        spec_title(spec_edited(v), style) == "* "@ + spec_title(spec_saved(v), style),
        spec_title(spec_saved(v), style) == spec_display_name(v, style) + " - NoteRust"@,
        !spec_saved(v).dirty,
        !spec_saved_as(v, path).dirty,
        !spec_opened(v, path, content).dirty,
        !spec_new_file(v).dirty,
{
    assert(spec_title(spec_edited(v), style) =~= "* "@ + spec_title(spec_saved(v), style));
    assert(spec_title(spec_saved(v), style) =~= spec_display_name(v, style) + " - NoteRust"@);
}

/// The text after the last separator of `dir/name` is `name` when `name`
/// has no separator.
proof fn lemma_after_last_separator_of_child(dir: Seq<char>, name: Seq<char>, style: PathStyle)
    requires
        forall|i: int| 0 <= i < name.len() ==> !is_separator(#[trigger] name[i], style),
    ensures
        after_last_separator(dir + seq!['/'] + name, style) == name,
    decreases name.len(),
{
    let p = dir + seq!['/'] + name;
    if name.len() == 0 {
        assert(p.last() == '/');
        assert(after_last_separator(p, style) =~= name);
    } else {
        assert(p.drop_last() =~= dir + seq!['/'] + name.drop_last());
        assert forall|i: int| 0 <= i < name.drop_last().len() implies !is_separator(
            #[trigger] name.drop_last()[i],
            style,
        ) by {
            assert(name.drop_last()[i] == name[i]);
        }
        lemma_after_last_separator_of_child(dir, name.drop_last(), style);
        assert(p.last() == name[name.len() - 1]);
        assert(after_last_separator(p, style) =~= name);
    }
}

/// The file name of `dir/name` is `name` for a plain name.
pub proof fn lemma_file_name_of_child(dir: Seq<char>, name: Seq<char>, style: PathStyle)
    requires
        is_plain_name(name, style),
    ensures
        spec_file_name(dir + seq!['/'] + name, style) == Some(name),
{
    let p = dir + seq!['/'] + name;
    let k = prefix_len(p, style) as int;
    let d = dir.skip(k);
    if dir.len() < 2 {
        if dir.len() == 0 {
            assert(p[0] == '/');
        } else {
            assert(p[1] == '/');
        }
        assert(k == 0);
    }
    let body = p.skip(k);
    assert(body =~= d + seq!['/'] + name);
    assert(body.last() == name[name.len() - 1]);
    if name.len() >= 2 {
        assert(body[body.len() - 2] == name[name.len() - 2]);
    } else {
        assert(name =~= seq![name[0]]);
        assert(!(name =~= seq!['.']));
        assert(name[0] != '.');
    }
    assert(trim_trailing(body, style) == body);
    lemma_after_last_separator_of_child(d, name, style);
}

/// A separator at the end of a path does not change its file name.
pub proof fn lemma_file_name_ignores_trailing_separator(path: Seq<char>, style: PathStyle)
    ensures
        spec_file_name(path.push('/'), style) == spec_file_name(path, style),
{
    let q = path.push('/');
    let k = prefix_len(path, style) as int;
    if path.len() >= 2 {
        assert(q[0] == path[0] && q[1] == path[1]);
    } else if path.len() == 1 {
        assert(q[1] == '/');
    }
    assert(prefix_len(q, style) == k);
    assert(q.skip(k) =~= path.skip(k).push('/'));
    assert(q.skip(k).drop_last() =~= path.skip(k));
}

/// After a file is opened or saved as `dir/name`, the window title is
/// `name - NoteRust`.
pub proof fn lemma_title_shows_file_name(
    v: EditorView,
    dir: Seq<char>,
    name: Seq<char>,
    content: Seq<char>,
    style: PathStyle,
)
    requires
        is_plain_name(name, style),
    ensures
        spec_title(spec_saved_as(v, dir + seq!['/'] + name), style) == name + " - NoteRust"@,
        spec_title(spec_opened(v, dir + seq!['/'] + name, content), style) == name
            + " - NoteRust"@,
{
    lemma_file_name_of_child(dir, name, style);
    assert(spec_title(spec_saved_as(v, dir + seq!['/'] + name), style) =~= name
        + " - NoteRust"@);
    assert(spec_title(spec_opened(v, dir + seq!['/'] + name, content), style) =~= name
        + " - NoteRust"@);
}

/// A new document is titled `Untitled - NoteRust`, with no `*`.
pub proof fn lemma_new_file_is_untitled(v: EditorView, style: PathStyle)
    ensures
        spec_display_name(spec_new_file(v), style) == "Untitled"@,
        spec_title(spec_new_file(v), style) == "Untitled"@ + " - NoteRust"@,
{
    assert(spec_title(spec_new_file(v), style) =~= "Untitled"@ + " - NoteRust"@);
}

/// The appearance is set up once: after the first call, `configure_appearance`
/// answers `false` and changes nothing more.
pub proof fn lemma_appearance_configured_once(v: EditorView)
    ensures
        spec_configured(v).appearance_configured,
        spec_configured(spec_configured(v)) == spec_configured(v),
{
}

/// The key presses that the Edit menu sends are never taken for a shortcut.
pub proof fn lemma_edit_keys_are_not_shortcuts(action: EditAction, about_open: bool)
    ensures
        spec_edit_request(action) matches EditRequest::Press(event) ==> spec_shortcut(
            event,
            about_open,
        ) is None,
{
}

/// The shortcuts of two runs of events, one after the other, are those of
/// the first run followed by those of the second.
pub proof fn lemma_shortcuts_append(first: Seq<KeyEvent>, second: Seq<KeyEvent>, about_open: bool)
    ensures
        spec_shortcuts(first + second, about_open) == spec_shortcuts(first, about_open)
            + spec_shortcuts(second, about_open),
    decreases second.len(),
{
    if second.len() == 0 {
        assert(first + second =~= first);
        assert(spec_shortcuts(first, about_open) + spec_shortcuts(second, about_open)
            =~= spec_shortcuts(first, about_open));
    } else {
        assert((first + second).drop_last() =~= first + second.drop_last());
        assert((first + second).last() == second.last());
        lemma_shortcuts_append(first, second.drop_last(), about_open);
        match spec_shortcut(second.last(), about_open) {
            Some(s) => {
                assert(spec_shortcuts(first + second, about_open) =~= spec_shortcuts(
                    first,
                    about_open,
                ) + spec_shortcuts(second, about_open));
            },
            None => {},
        }
    }
}

/// Only the font steps change the font size.
pub proof fn lemma_only_font_steps_change_font(v: EditorView, step: Step)
    ensures
        !(step is FontIncreased) && !(step is FontDecreased) ==> spec_step(v, step).font_size
            == v.font_size,
{
}

/// Whatever the editor does, a font size between `MIN_FONT_SIZE` and
/// `MAX_FONT_SIZE` stays between them: through any run of steps, whatever
/// the commands of a frame and the outcomes of the file work.
pub proof fn lemma_font_size_range_kept_by_any_run(v: EditorView, steps: Seq<Step>)
    requires
        MIN_FONT_SIZE <= v.font_size <= MAX_FONT_SIZE,
    ensures
        MIN_FONT_SIZE <= spec_run(v, steps).font_size <= MAX_FONT_SIZE,
    decreases steps.len(),
{
    if steps.len() > 0 {
        lemma_font_size_range_kept_by_any_run(v, steps.drop_last());
    }
}

/// A larger number has at least as many decimal digits.
proof fn lemma_decimal_len_monotonic(a: nat, b: nat)
    requires
        a <= b,
    ensures
        spec_decimal(a).len() <= spec_decimal(b).len(),
    decreases b,
{
    if b >= 10 {
        if a < 10 {
            assert(spec_decimal(b).len() >= 1);
        } else {
            assert(a / 10 <= b / 10);
            lemma_decimal_len_monotonic(a / 10, b / 10);
        }
    }
}

/// Every line-number label of the gutter has the same width: that of the
/// gutter, so that the numbers line up on the right.
pub proof fn lemma_gutter_labels_aligned(line_count: nat, number: nat)
    requires
        1 <= number <= line_count,
    ensures
        spec_pad_left(spec_decimal(number), spec_gutter_digits(line_count)).len()
            == spec_gutter_digits(line_count),
{
    lemma_decimal_len_monotonic(number, line_count);
}

} // verus!
