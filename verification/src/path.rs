//! The file name of a path, as shown in the window title.
//!
//! Paths follow the conventions of the platform, given as a `PathStyle`:
//! on Unix `/` separates components; on Windows `\` does too, and a drive
//! prefix such as `C:` at the start is not a component. Empty pieces (from
//! repeated or trailing separators) and `.` pieces after the first are not
//! components, and a path that ends in `..` has no file name.
use vstd::prelude::*;
use vstd::string::*;

use crate::chars::chars_of;

verus! {

/// The path conventions of a platform.
#[derive(Clone, Copy, Debug, PartialEq, Eq, Structural)]
pub enum PathStyle {
    /// `/` separates components.
    Unix,
    /// `/` and `\` separate components, and a path may start with a drive
    /// prefix `X:`. Other Windows prefixes (`\\server\share`, `\\?\`) are
    /// read as separators and names.
    Windows,
}

/// Whether `c` separates components.
pub open spec fn is_separator(c: char, style: PathStyle) -> bool {
    c == '/' || (style == PathStyle::Windows && c == '\\')
}

/// Whether `c` is an ASCII letter, as a drive letter is.
pub open spec fn is_drive_letter(c: char) -> bool {
    (65 <= (c as u32) && (c as u32) <= 90) || (97 <= (c as u32) && (c as u32) <= 122)
}

/// Length of the prefix of `path` that comes before its components: a drive
/// `X:` on Windows, nothing otherwise.
pub open spec fn prefix_len(path: Seq<char>, style: PathStyle) -> nat {
    if style == PathStyle::Windows && path.len() >= 2 && path[1] == ':' && is_drive_letter(
        path[0],
    ) {
        2
    } else {
        0
    }
}

/// `path` with every trailing separator and trailing separator-and-`.`
/// removed.
pub open spec fn trim_trailing(path: Seq<char>, style: PathStyle) -> Seq<char>
    decreases path.len(),
{
    if path.len() > 0 && is_separator(path.last(), style) {
        trim_trailing(path.drop_last(), style)
    } else if path.len() >= 2 && path.last() == '.' && is_separator(path[path.len() - 2], style) {
        trim_trailing(path.take(path.len() - 2), style)
    } else {
        path
    }
}

/// The characters of `s` after its last separator (all of `s` when it holds
/// none).
pub open spec fn after_last_separator(s: Seq<char>, style: PathStyle) -> Seq<char>
    decreases s.len(),
{
    if s.len() == 0 {
        s
    } else if is_separator(s.last(), style) {
        Seq::empty()
    } else {
        after_last_separator(s.drop_last(), style).push(s.last())
    }
}

/// The final component of `path`, if it is a file or directory name: `None`
/// for an empty path, a root, a drive, `.`, and a path that ends in `..`.
pub open spec fn spec_file_name(path: Seq<char>, style: PathStyle) -> Option<Seq<char>> {
    let body = path.skip(prefix_len(path, style) as int);
    let last = after_last_separator(trim_trailing(body, style), style);
    if last.len() == 0 || last =~= seq!['.'] || last =~= seq!['.', '.'] {
        None
    } else {
        Some(last)
    }
}

/// Whether `c` separates components.
fn separator(c: char, style: PathStyle) -> (b: bool)
    ensures
        b == is_separator(c, style),
{
    c == '/' || (style == PathStyle::Windows && c == '\\')
}

/// Where `trim_trailing(s[lo..])` ends in `s`.
fn trimmed_end(s: &Vec<char>, lo: usize, style: PathStyle) -> (end: usize)
    requires
        lo <= s@.len(),
    ensures
        lo <= end <= s@.len(),
        s@.subrange(lo as int, end as int) == trim_trailing(s@.skip(lo as int), style),
{
    let mut end = s.len();
    assert(s@.subrange(lo as int, end as int) =~= s@.skip(lo as int));
    while end > lo
        invariant
            lo <= end <= s@.len(),
            trim_trailing(s@.subrange(lo as int, end as int), style) == trim_trailing(
                s@.skip(lo as int),
                style,
            ),
        decreases end,
    {
        let ghost t = s@.subrange(lo as int, end as int);
        if separator(s[end - 1], style) {
            assert(t.drop_last() =~= s@.subrange(lo as int, end - 1));
            end = end - 1;
        } else if end - lo >= 2 && s[end - 1] == '.' && separator(s[end - 2], style) {
            assert(t.take(t.len() - 2) =~= s@.subrange(lo as int, end - 2));
            end = end - 2;
        } else {
            return end;
        }
    }
    end
}

/// Start of the piece of `s[lo..end]` that follows its last separator.
fn last_piece_start(s: &Vec<char>, lo: usize, end: usize, style: PathStyle) -> (start: usize)
    requires
        lo <= end <= s@.len(),
    ensures
        lo <= start <= end,
        s@.subrange(start as int, end as int) == after_last_separator(
            s@.subrange(lo as int, end as int),
            style,
        ),
{
    let mut start = end;
    assert(s@.subrange(end as int, end as int) =~= Seq::<char>::empty());
    while start > lo && !separator(s[start - 1], style)
        invariant
            lo <= start <= end <= s@.len(),
            after_last_separator(s@.subrange(lo as int, end as int), style)
                == after_last_separator(s@.subrange(lo as int, start as int), style)
                + s@.subrange(start as int, end as int),
        decreases start,
    {
        let ghost t = s@.subrange(lo as int, start as int);
        assert(t.drop_last() =~= s@.subrange(lo as int, start - 1));
        assert(s@.subrange(start - 1, end as int) =~= seq![s@[start - 1]] + s@.subrange(
            start as int,
            end as int,
        ));
        start = start - 1;
    }
    assert(after_last_separator(s@.subrange(lo as int, start as int), style)
        =~= Seq::<char>::empty());
    start
}

/// Whether `c` is an ASCII letter.
fn drive_letter(c: char) -> (b: bool)
    ensures
        b == is_drive_letter(c),
{
    let u = c as u32;
    (65 <= u && u <= 90) || (97 <= u && u <= 122)
}

/// The final component of `path` in the given style: the name that
/// `std::path::Path::file_name` gives on that platform.
pub fn file_name(path: &str, style: PathStyle) -> (name: Option<&str>)
    ensures
        match name {
            Some(n) => spec_file_name(path@, style) == Some(n@),
            None => spec_file_name(path@, style) is None,
        },
{
    let cs = chars_of(path);
    let lo: usize = if style == PathStyle::Windows && cs.len() >= 2 && cs[1] == ':'
        && drive_letter(cs[0]) {
        2
    } else {
        0
    };
    assert(lo == prefix_len(path@, style));
    let end = trimmed_end(&cs, lo, style);
    let start = last_piece_start(&cs, lo, end, style);
    let len = end - start;
    if len == 0 {
        return None;
    }
    if len == 1 && cs[start] == '.' {
        assert(cs@.subrange(start as int, end as int) =~= seq!['.']);
        return None;
    }
    if len == 2 && cs[start] == '.' && cs[start + 1] == '.' {
        assert(cs@.subrange(start as int, end as int) =~= seq!['.', '.']);
        return None;
    }
    let piece = path.substring_char(start, end);
    proof {
        let last = cs@.subrange(start as int, end as int);
        if len == 1 {
            assert(last[0] != '.');
            assert(!(last =~= seq!['.']));
        }
        if len == 2 {
            assert(last[0] != '.' || last[1] != '.');
            assert(!(last =~= seq!['.', '.']));
        }
    }
    Some(piece)
}

} // verus!
