//! The answer to a yes-or-no question, as it was typed on one line.

use vstd::prelude::*;
use crate::text::chars_of;

verus! {

/// Whether `c` is white space, as Unicode defines it.
pub open spec fn is_whitespace(c: char) -> bool {
    let code = c as u32;
    ||| 0x09 <= code <= 0x0d
    ||| code == 0x20
    ||| code == 0x85
    ||| code == 0xa0
    ||| code == 0x1680
    ||| 0x2000 <= code <= 0x200a
    ||| code == 0x2028
    ||| code == 0x2029
    ||| code == 0x202f
    ||| code == 0x205f
    ||| code == 0x3000
}

/// `text` without the white space at its start.
pub open spec fn trim_start(text: Seq<char>) -> Seq<char>
    decreases text.len(),
{
    if text.len() > 0 && is_whitespace(text.first()) {
        trim_start(text.drop_first())
    } else {
        text
    }
}

/// `text` without the white space at its end.
pub open spec fn trim_end(text: Seq<char>) -> Seq<char>
    decreases text.len(),
{
    if text.len() > 0 && is_whitespace(text.last()) {
        trim_end(text.drop_last())
    } else {
        text
    }
}

/// `text` without the white space at its start and at its end.
pub open spec fn trimmed(text: Seq<char>) -> Seq<char> {
    trim_end(trim_start(text))
}

/// Whether `line` says yes: apart from white space around it, it is the
/// letter `y`, small or capital. Anything else says no, an empty line too.
pub open spec fn says_yes(line: Seq<char>) -> bool {
    trimmed(line) == seq!['y'] || trimmed(line) == seq!['Y']
}

/// Tells whether `c` is white space.
fn whitespace(c: char) -> (white: bool)
    ensures
        white == is_whitespace(c),
{
    let code: u32 = c as u32;
    (0x09 <= code && code <= 0x0d) || code == 0x20 || code == 0x85 || code == 0xa0 || code
        == 0x1680 || (0x2000 <= code && code <= 0x200a) || code == 0x2028 || code == 0x2029 || code
        == 0x202f || code == 0x205f || code == 0x3000
}

/// Tells whether the answer typed on `line` is yes.
pub fn is_affirmative(line: &str) -> (yes: bool)
    ensures
        yes == says_yes(line@),
{
    let chars = chars_of(line);
    let count: usize = chars.len();
    let mut start: usize = 0;
    assert(chars@.subrange(0, count as int) =~= chars@);
    while start < count && whitespace(chars[start])
        invariant
            start <= count == chars@.len(),
            trim_start(chars@) == trim_start(chars@.subrange(start as int, count as int)),
        decreases count - start,
    {
        assert(chars@.subrange(start as int, count as int).drop_first() =~= chars@.subrange(
            start + 1,
            count as int,
        ));
        start += 1;
    }
    let mut end: usize = count;
    while end > start && whitespace(chars[end - 1])
        invariant
            start <= end <= count == chars@.len(),
            trim_start(chars@) == chars@.subrange(start as int, count as int),
            trimmed(chars@) == trim_end(chars@.subrange(start as int, end as int)),
        decreases end - start,
    {
        assert(chars@.subrange(start as int, end as int).drop_last() =~= chars@.subrange(
            start as int,
            end - 1,
        ));
        end -= 1;
    }
    if end - start == 1 {
        let letter = chars[start];
        assert(chars@.subrange(start as int, end as int) =~= seq![letter]);
        letter == 'y' || letter == 'Y'
    } else {
        false
    }
}

} // verus!
