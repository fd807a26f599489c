//! Character sequences: the few text operations the shell's rules are stated
//! in, each with an executable counterpart.

use vstd::prelude::*;
use vstd::utf8::char_u32_cast;

verus! {

/// The code points with the Unicode `White_Space` property.
pub open spec fn whitespace(c: char) -> bool {
    let code = c as u32;
    ||| 0x09 <= code <= 0x0D
    ||| code == 0x20
    ||| code == 0x85
    ||| code == 0xA0
    ||| code == 0x1680
    ||| 0x2000 <= code <= 0x200A
    ||| code == 0x2028
    ||| code == 0x2029
    ||| code == 0x202F
    ||| code == 0x205F
    ||| code == 0x3000
}

/// `s` without its leading whitespace.
pub open spec fn trim_start(s: Seq<char>) -> Seq<char>
    decreases s.len(),
{
    if s.len() > 0 && whitespace(s[0]) {
        trim_start(s.drop_first())
    } else {
        s
    }
}

/// `s` without its trailing whitespace.
pub open spec fn trim_end(s: Seq<char>) -> Seq<char>
    decreases s.len(),
{
    if s.len() > 0 && whitespace(s.last()) {
        trim_end(s.drop_last())
    } else {
        s
    }
}

/// `s` without leading and trailing whitespace.
pub open spec fn trimmed(s: Seq<char>) -> Seq<char> {
    trim_end(trim_start(s))
}

/// `c`, with the letters `A` to `Z` mapped to `a` to `z`.
pub open spec fn ascii_lower(c: char) -> char {
    if 'A' <= c <= 'Z' {
        (c as u32 + 32) as char
    } else {
        c
    }
}

/// `s` with each of its ASCII capitals lowered.
pub open spec fn ascii_lowercase(s: Seq<char>) -> Seq<char> {
    Seq::new(s.len(), |i: int| ascii_lower(s[i]))
}

/// `s` ends with `suffix`.
pub open spec fn ends_with(s: Seq<char>, suffix: Seq<char>) -> bool {
    &&& suffix.len() <= s.len()
    &&& s.subrange(s.len() - suffix.len(), s.len() as int) == suffix
}

/// The characters of `s`.
pub(crate) fn chars_of(s: &str) -> (out: Vec<char>)
    ensures
        out@ == s@,
{
    let mut out: Vec<char> = Vec::new();
    for c in it: s.chars()
        invariant
            out@ == it.seq().take(it.index() as int),
            it.seq() == s@,
    {
        out.push(c);
    }
    out
}

/// Whether `c` is whitespace.
pub(crate) fn is_whitespace(c: char) -> (r: bool)
    ensures
        r == whitespace(c),
{
    let code: u32 = c as u32;
    (0x09 <= code && code <= 0x0D) || code == 0x20 || code == 0x85 || code == 0xA0 || code
        == 0x1680 || (0x2000 <= code && code <= 0x200A) || code == 0x2028 || code == 0x2029
        || code == 0x202F || code == 0x205F || code == 0x3000
}

/// The code of `ascii_lower(c)`.
pub(crate) fn lowered_code(c: char) -> (code: u32)
    ensures
        code == ascii_lower(c) as u32,
{
    let code: u32 = c as u32;
    if 65 <= code && code <= 90 {
        code + 32
    } else {
        code
    }
}

/// The bounds of `trimmed(text@)` inside `text`.
pub(crate) fn trim_bounds(text: &Vec<char>) -> (bounds: (usize, usize))
    ensures
        bounds.0 <= bounds.1 <= text.len(),
        text@.subrange(bounds.0 as int, bounds.1 as int) == trimmed(text@),
{
    let mut start: usize = 0;
    assert(text@.skip(0) =~= text@);
    while start < text.len() && is_whitespace(text[start])
        invariant
            start <= text.len(),
            trim_start(text@) == trim_start(text@.skip(start as int)),
        decreases text.len() - start,
    {
        assert(text@.skip(start as int).drop_first() =~= text@.skip(start as int + 1));
        start = start + 1;
    }
    assert(trim_start(text@) == text@.skip(start as int));
    let mut end: usize = text.len();
    assert(text@.skip(start as int) =~= text@.subrange(start as int, end as int));
    while start < end && is_whitespace(text[end - 1])
        invariant
            start <= end <= text.len(),
            trimmed(text@) == trim_end(text@.subrange(start as int, end as int)),
        decreases end - start,
    {
        assert(text@.subrange(start as int, end as int).drop_last() =~= text@.subrange(
            start as int,
            end as int - 1,
        ));
        end = end - 1;
    }
    (start, end)
}

/// Whether `text[start..end]`, with its ASCII capitals lowered, is `word`.
pub(crate) fn range_lowers_to(text: &Vec<char>, start: usize, end: usize, word: &str) -> (r: bool)
    requires
        start <= end <= text.len(),
    ensures
        r == (ascii_lowercase(text@.subrange(start as int, end as int)) == word@),
{
    let expected = chars_of(word);
    if end - start != expected.len() {
        return false;
    }
    let ghost lowered = ascii_lowercase(text@.subrange(start as int, end as int));
    let mut k: usize = 0;
    while k < expected.len()
        invariant
            k <= expected.len(),
            start <= end <= text.len(),
            end - start == expected.len(),
            expected@ == word@,
            lowered == ascii_lowercase(text@.subrange(start as int, end as int)),
            forall|i: int| 0 <= i < k ==> #[trigger] lowered[i] == expected[i],
        decreases expected.len() - k,
    {
        let c: char = text[start + k];
        let w: char = expected[k];
        assert(lowered[k as int] == ascii_lower(c));
        let code: u32 = lowered_code(c);
        let wanted: u32 = w as u32;
        if code != wanted {
            return false;
        }
        proof {
            char_u32_cast(ascii_lower(c), code);
            char_u32_cast(w, wanted);
        }
        k = k + 1;
    }
    assert(lowered =~= expected@);
    true
}

/// Whether `text` ends with `suffix`.
pub(crate) fn has_suffix(text: &Vec<char>, suffix: &Vec<char>) -> (r: bool)
    ensures
        r == ends_with(text@, suffix@),
{
    if suffix.len() > text.len() {
        return false;
    }
    let offset: usize = text.len() - suffix.len();
    let ghost tail = text@.subrange(offset as int, text.len() as int);
    let mut k: usize = 0;
    while k < suffix.len()
        invariant
            k <= suffix.len(),
            suffix.len() <= text.len(),
            offset == text.len() - suffix.len(),
            tail == text@.subrange(offset as int, text.len() as int),
            forall|i: int| 0 <= i < k ==> #[trigger] tail[i] == suffix[i],
        decreases suffix.len() - k,
    {
        if text[offset + k] != suffix[k] {
            assert(tail[k as int] != suffix[k as int]);
            return false;
        }
        k = k + 1;
    }
    assert(tail =~= suffix@);
    true
}

/// Whether `text` is `word`.
pub(crate) fn is_text(text: &Vec<char>, word: &str) -> (r: bool)
    ensures
        r == (text@ == word@),
{
    let expected = chars_of(word);
    if text.len() != expected.len() {
        return false;
    }
    let r = has_suffix(text, &expected);
    assert(text@.subrange(0, text.len() as int) =~= text@);
    r
}

/// Whether `text` ends with `prefix` followed by `word`.
pub(crate) fn has_suffix_after(text: &Vec<char>, prefix: char, word: &str) -> (r: bool)
    ensures
        r == ends_with(text@, seq![prefix] + word@),
{
    let tail = chars_of(word);
    let mut suffix: Vec<char> = Vec::new();
    suffix.push(prefix);
    let mut k: usize = 0;
    while k < tail.len()
        invariant
            k <= tail.len(),
            suffix@ == seq![prefix] + tail@.take(k as int),
        decreases tail.len() - k,
    {
        suffix.push(tail[k]);
        assert(tail@.take(k as int + 1) =~= tail@.take(k as int).push(tail[k as int]));
        assert(suffix@ =~= seq![prefix] + tail@.take(k as int + 1));
        k = k + 1;
    }
    assert(tail@.take(k as int) =~= tail@);
    has_suffix(text, &suffix)
}

} // verus!
