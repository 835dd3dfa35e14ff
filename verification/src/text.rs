//! Counting the lines of the buffer and writing the line numbers of the gutter.
use vstd::prelude::*;
use vstd::string::*;

verus! {

/// Number of `\n` characters in `s`.
pub open spec fn count_newlines(s: Seq<char>) -> nat
    decreases s.len(),
{
    if s.len() == 0 {
        0
    } else {
        count_newlines(s.drop_last()) + if s.last() == '\n' {
            1nat
        } else {
            0nat
        }
    }
}

/// Number of lines in `s`, as `str::lines` yields them: every `\n` ends a
/// line, and a last line without a `\n` counts as well.
pub open spec fn spec_lines(s: Seq<char>) -> nat {
    if s.len() == 0 {
        0
    } else if s.last() == '\n' {
        count_newlines(s)
    } else {
        count_newlines(s) + 1
    }
}

/// Number of lines that the gutter numbers: at least one, even for an empty buffer.
pub open spec fn spec_line_count(s: Seq<char>) -> nat {
    if spec_lines(s) == 0 {
        1
    } else {
        spec_lines(s)
    }
}

/// The character of the decimal digit `d`.
pub open spec fn digit_char(d: nat) -> char {
    (d + 48) as char
}

/// The decimal representation of `n`, without leading zeros.
pub open spec fn spec_decimal(n: nat) -> Seq<char>
    decreases n,
{
    if n < 10 {
        seq![digit_char(n)]
    } else {
        spec_decimal(n / 10).push(digit_char(n % 10))
    }
}

/// `n` spaces.
pub open spec fn spaces(n: nat) -> Seq<char> {
    Seq::new(n, |i: int| ' ')
}

/// `s` right-aligned in a field of `width` characters, padded with spaces.
pub open spec fn spec_pad_left(s: Seq<char>, width: nat) -> Seq<char> {
    if s.len() < width {
        spaces((width - s.len()) as nat) + s
    } else {
        s
    }
}

/// Width of the line-number gutter, in digits: those of the largest line
/// number, and never fewer than three.
pub open spec fn spec_gutter_digits(line_count: nat) -> nat {
    let d = spec_decimal(line_count).len();
    if d < 3 {
        3
    } else {
        d
    }
}

/// `String::push`: appends one character.
#[verifier::external_body]
fn push_char(s: &mut String, c: char)
    ensures
        final(s)@ == old(s)@.push(c),
{
    s.push(c);
}

/// Number of lines in `text` that the gutter numbers: the lines that
/// `str::lines` yields, and one for an empty buffer.
pub fn line_count(text: &str) -> (n: usize)
    ensures
        n == spec_line_count(text@),
{
    broadcast use vstd::string::group_string_axioms;

    let len = text.unicode_len();
    let mut newlines: usize = 0;
    let mut last: Option<char> = None;
    for c in it: text.chars()
        invariant
            len == text@.len(),
            it.seq() == text@,
            newlines == count_newlines(it.seq().take(it.index() as int)),
            newlines <= it.index(),
            it.index() > 0 && last != Some('\n') ==> newlines < it.index(),
            last == (if it.index() == 0 {
                None
            } else {
                Some(it.seq()[it.index() - 1])
            }),
    {
        let ghost prefix = it.seq().take(it.index() as int);
        let ghost next = it.seq().take(it.index() + 1);
        assert(next.drop_last() =~= prefix);
        if c == '\n' {
            newlines = newlines + 1;
        }
        last = Some(c);
    }
    assert(text@.take(text@.len() as int) =~= text@);
    match last {
        None => 1,
        Some(c) => {
            if c == '\n' {
                if newlines == 0 {
                    1
                } else {
                    newlines
                }
            } else {
                newlines + 1
            }
        },
    }
}

/// The decimal representation of `n`.
pub fn decimal(n: usize) -> (s: String)
    ensures
        s@ == spec_decimal(n as nat),
    decreases n,
{
    let digit: u8 = (n % 10) as u8;
    let c: char = (48u8 + digit) as char;
    if n < 10 {
        let mut s = String::new();
        push_char(&mut s, c);
        assert(s@ =~= seq![digit_char(n as nat)]);
        s
    } else {
        let mut s = decimal(n / 10);
        push_char(&mut s, c);
        s
    }
}

/// The gutter label of line `number`: its decimal digits right-aligned in a
/// field of `width` characters.
pub fn line_number_label(number: usize, width: usize) -> (label: String)
    ensures
        label@ == spec_pad_left(spec_decimal(number as nat), width as nat),
{
    let digits = decimal(number);
    let len = digits.as_str().unicode_len();
    let mut label = String::new();
    let mut i: usize = len;
    while i < width
        invariant
            len == digits@.len(),
            len <= i <= width || (width < len && i == len),
            label@ == spaces((i - len) as nat),
        decreases width - i,
    {
        push_char(&mut label, ' ');
        assert(label@ =~= spaces((i + 1 - len) as nat));
        i = i + 1;
    }
    label.append(digits.as_str());
    if len >= width {
        assert(label@ =~= digits@);
    }
    label
}

/// Width of the line-number gutter of `text`, in digits.
pub fn gutter_digits(text: &str) -> (digits: usize)
    ensures
        digits == spec_gutter_digits(spec_line_count(text@)),
{
    let count = line_count(text);
    let d = decimal(count).as_str().unicode_len();
    if d < 3 {
        3
    } else {
        d
    }
}

} // verus!
