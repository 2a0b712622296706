//! Text helpers: blank tests, trimming, prefixes and substrings.

use vstd::prelude::*;
use vstd::string::{StrSliceExecFns, StringExecFns};

verus! {

/// The characters with the Unicode property `White_Space`.
pub open spec fn is_white_space(c: char) -> bool {
    let n = c as u32;
    ||| 0x9 <= n <= 0xd
    ||| n == 0x20
    ||| n == 0x85
    ||| n == 0xa0
    ||| n == 0x1680
    ||| 0x2000 <= n <= 0x200a
    ||| n == 0x2028
    ||| n == 0x2029
    ||| n == 0x202f
    ||| n == 0x205f
    ||| n == 0x3000
}

/// No character of `s` is anything but white space.
pub open spec fn is_blank(s: Seq<char>) -> bool {
    forall|i: int| 0 <= i < s.len() ==> is_white_space(#[trigger] s[i])
}

/// `s` without its leading white space.
pub open spec fn trimmed_start(s: Seq<char>) -> Seq<char>
    decreases s.len(),
{
    if s.len() > 0 && is_white_space(s[0]) {
        trimmed_start(s.drop_first())
    } else {
        s
    }
}

/// `s` without its trailing white space.
pub open spec fn trimmed_end(s: Seq<char>) -> Seq<char>
    decreases s.len(),
{
    if s.len() > 0 && is_white_space(s.last()) {
        trimmed_end(s.drop_last())
    } else {
        s
    }
}

/// `s` without white space on either side.
pub open spec fn trimmed(s: Seq<char>) -> Seq<char> {
    trimmed_end(trimmed_start(s))
}

/// `needle` occurs in `s` as a contiguous piece.
pub open spec fn contains_text(s: Seq<char>, needle: Seq<char>) -> bool {
    exists|i: int|
        0 <= i <= s.len() - needle.len() && #[trigger] s.subrange(i, i + needle.len()) == needle
}

/// Tests for the Unicode property `White_Space`.
pub fn is_white_space_char(c: char) -> (r: bool)
    ensures
        r == is_white_space(c),
{
    let n: u32 = c as u32;
    (0x9 <= n && n <= 0xd) || n == 0x20 || n == 0x85 || n == 0xa0 || n == 0x1680 || (0x2000 <= n
        && n <= 0x200a) || n == 0x2028 || n == 0x2029 || n == 0x202f || n == 0x205f || n == 0x3000
}

/// The characters of `s`, in order.
pub fn chars_of(s: &str) -> (chars: Vec<char>)
    ensures
        chars@ == s@,
{
    let mut chars: Vec<char> = Vec::new();
    for c in it: s.chars()
        invariant
            it.seq() == s@,
            chars@ == s@.take(it.index() as int),
    {
        chars.push(c);
    }
    assert(s@.take(s@.len() as int) == s@);
    chars
}

/// Tests whether two texts hold the same characters.
pub fn same_text(a: &str, b: &str) -> (r: bool)
    ensures
        r == (a@ == b@),
{
    let left = chars_of(a);
    let right = chars_of(b);
    if left.len() != right.len() {
        return false;
    }
    let mut index: usize = 0;
    while index < left.len()
        invariant
            index <= left@.len(),
            left@.len() == right@.len(),
            left@ == a@,
            right@ == b@,
            forall|i: int| 0 <= i < index ==> left@[i] == right@[i],
        decreases left@.len() - index,
    {
        if left[index] != right[index] {
            assert(a@[index as int] != b@[index as int]);
            return false;
        }
        index += 1;
    }
    assert(a@ =~= b@);
    true
}

/// Tests whether `s` holds nothing but white space.
pub fn is_blank_text(s: &str) -> (r: bool)
    ensures
        r == is_blank(s@),
{
    let chars = chars_of(s);
    let mut index: usize = 0;
    while index < chars.len()
        invariant
            index <= chars@.len(),
            chars@ == s@,
            forall|i: int| 0 <= i < index ==> is_white_space(#[trigger] s@[i]),
        decreases chars@.len() - index,
    {
        if !is_white_space_char(chars[index]) {
            assert(!is_white_space(s@[index as int]));
            return false;
        }
        index += 1;
    }
    true
}

proof fn lemma_trimmed_start(s: Seq<char>, from: int)
    requires
        0 <= from <= s.len(),
        forall|i: int| 0 <= i < from ==> is_white_space(#[trigger] s[i]),
        from < s.len() ==> !is_white_space(s[from]),
    ensures
        trimmed_start(s) == s.subrange(from, s.len() as int),
    decreases s.len(),
{
    if from == 0 {
        assert(s.subrange(0, s.len() as int) =~= s);
    } else {
        let rest = s.drop_first();
        assert forall|i: int| 0 <= i < from - 1 implies is_white_space(#[trigger] rest[i]) by {
            assert(rest[i] == s[i + 1]);
        }
        lemma_trimmed_start(rest, from - 1);
        assert(rest.subrange(from - 1, rest.len() as int) =~= s.subrange(from, s.len() as int));
    }
}

proof fn lemma_trimmed_end(s: Seq<char>, to: int)
    requires
        0 <= to <= s.len(),
        forall|i: int| to <= i < s.len() ==> is_white_space(#[trigger] s[i]),
        0 < to ==> !is_white_space(s[to - 1]),
    ensures
        trimmed_end(s) == s.subrange(0, to),
    decreases s.len(),
{
    if to == s.len() {
        assert(s.subrange(0, to) =~= s);
    } else {
        let rest = s.drop_last();
        assert(is_white_space(s[s.len() - 1]));
        assert forall|i: int| to <= i < rest.len() implies is_white_space(#[trigger] rest[i]) by {
            assert(rest[i] == s[i]);
        }
        lemma_trimmed_end(rest, to);
        assert(rest.subrange(0, to) =~= s.subrange(0, to));
    }
}

/// Text that neither starts nor ends with white space is its own trimming.
pub proof fn lemma_trimmed_unchanged(s: Seq<char>)
    requires
        s.len() > 0,
        !is_white_space(s[0]),
        !is_white_space(s.last()),
    ensures
        trimmed(s) == s,
{
}

/// Returns `s` without white space on either side.
pub fn trim(s: &str) -> (r: &str)
    ensures
        r@ == trimmed(s@),
{
    let chars = chars_of(s);
    let mut from: usize = 0;
    while from < chars.len() && is_white_space_char(chars[from])
        invariant
            from <= chars@.len(),
            chars@ == s@,
            forall|i: int| 0 <= i < from ==> is_white_space(#[trigger] s@[i]),
        decreases chars@.len() - from,
    {
        from += 1;
    }
    let mut to: usize = chars.len();
    while from < to && is_white_space_char(chars[to - 1])
        invariant
            from <= to <= chars@.len(),
            chars@ == s@,
            forall|i: int| to <= i < s@.len() ==> is_white_space(#[trigger] s@[i]),
        decreases to,
    {
        to -= 1;
    }
    proof {
        lemma_trimmed_start(s@, from as int);
        let rest = s@.subrange(from as int, s@.len() as int);
        assert forall|i: int| to - from <= i < rest.len() implies is_white_space(
            #[trigger] rest[i],
        ) by {
            assert(rest[i] == s@[i + from]);
        }
        lemma_trimmed_end(rest, to - from);
        assert(rest.subrange(0, to - from) =~= s@.subrange(from as int, to as int));
    }
    s.substring_char(from, to)
}

/// Tests whether `s` starts with `prefix`.
pub fn starts_with(s: &str, prefix: &str) -> (r: bool)
    ensures
        r == prefix@.is_prefix_of(s@),
{
    let text = chars_of(s);
    let head = chars_of(prefix);
    matches_at(&text, &head, 0)
}

/// Tests whether `piece` stands in `text` at `at`.
fn matches_at(text: &Vec<char>, piece: &Vec<char>, at: usize) -> (r: bool)
    requires
        at <= text@.len(),
    ensures
        r == (at + piece@.len() <= text@.len() && text@.subrange(
            at as int,
            at + piece@.len(),
        ) == piece@),
        at == 0 ==> r == piece@.is_prefix_of(text@),
{
    let limit: usize = text.len();
    if limit - at < piece.len() {
        return false;
    }
    let mut index: usize = 0;
    while index < piece.len()
        invariant
            index <= piece@.len(),
            at + piece@.len() <= limit,
            limit == text@.len(),
            forall|i: int| 0 <= i < index ==> text@[at + i] == #[trigger] piece@[i],
        decreases piece@.len() - index,
    {
        if text[at + index] != piece[index] {
            assert(text@.subrange(at as int, at + piece@.len())[index as int] != piece@[index as int]);
            return false;
        }
        index += 1;
    }
    assert(text@.subrange(at as int, at + piece@.len()) =~= piece@);
    true
}

/// Tests whether `needle` occurs in `s`.
pub fn contains(s: &str, needle: &str) -> (r: bool)
    ensures
        r == contains_text(s@, needle@),
{
    let text = chars_of(s);
    let piece = chars_of(needle);
    if text.len() < piece.len() {
        return false;
    }
    let last: usize = text.len() - piece.len();
    let mut at: usize = 0;
    loop
        invariant
            text@ == s@,
            piece@ == needle@,
            last == text@.len() - piece@.len(),
            at <= last,
            forall|i: int|
                0 <= i < at ==> #[trigger] s@.subrange(i, i + needle@.len()) != needle@,
        decreases last - at,
    {
        if matches_at(&text, &piece, at) {
            return true;
        }
        if at == last {
            return false;
        }
        at += 1;
    }
}

/// Returns `head` followed by `tail`.
pub fn joined(head: &str, tail: &str) -> (r: String)
    ensures
        r@ == head@ + tail@,
{
    let mut text: String = head.to_owned();
    text.append(tail);
    text
}

/// A text, or the empty one.
pub open spec fn text_or_empty(text: Option<Seq<char>>) -> Seq<char> {
    match text {
        Some(value) => value,
        None => seq![],
    }
}

/// Copies a text, or returns the empty one.
pub fn copy_or_empty(text: &Option<String>) -> (copy: String)
    ensures
        copy@ == text_or_empty(text.deep_view()),
{
    match text {
        Some(value) => value.clone(),
        None => {
            let empty = String::new();
            assert(empty@ =~= seq![]);
            empty
        },
    }
}

/// White space on either side of a text is trimmed off, and nothing else of it; nothing is left
/// of white space alone.
pub proof fn law_trimming_takes_off_white_space(
    before: Seq<char>,
    text: Seq<char>,
    after: Seq<char>,
)
    requires
        is_blank(before),
        is_blank(after),
        text.len() > 0 ==> !is_white_space(text[0]) && !is_white_space(text.last()),
    ensures
        trimmed(before + text + after) == text,
{
    let whole = before + text + after;
    if text.len() > 0 {
        let from = before.len() as int;
        assert forall|i: int| 0 <= i < from implies is_white_space(#[trigger] whole[i]) by {
            assert(whole[i] == before[i]);
        }
        assert(whole[from] == text[0]);
        lemma_trimmed_start(whole, from);
        let rest = whole.subrange(from, whole.len() as int);
        assert(rest =~= text + after);
        let to = text.len() as int;
        assert forall|i: int| to <= i < rest.len() implies is_white_space(#[trigger] rest[i]) by {
            assert(rest[i] == after[i - to]);
        }
        assert(rest[to - 1] == text.last());
        lemma_trimmed_end(rest, to);
        assert(rest.subrange(0, to) =~= text);
    } else {
        assert forall|i: int| 0 <= i < whole.len() implies is_white_space(#[trigger] whole[i]) by {
            if i < before.len() {
                assert(whole[i] == before[i]);
            } else {
                assert(whole[i] == after[i - before.len()]);
            }
        }
        lemma_trimmed_start(whole, whole.len() as int);
        assert(whole.subrange(whole.len() as int, whole.len() as int) =~= text);
    }
}

/// A text is blank where each of its parts is; one character makes a blank text only where it is
/// white space.
pub proof fn law_blank_texts(a: Seq<char>, b: Seq<char>, c: char)
    ensures
        is_blank(seq![]),
        is_blank(a + b) <==> is_blank(a) && is_blank(b),
        is_blank(seq![c]) <==> is_white_space(c),
{
    let joined = a + b;
    if is_blank(joined) {
        assert forall|i: int| 0 <= i < a.len() implies is_white_space(#[trigger] a[i]) by {
            assert(joined[i] == a[i]);
        }
        assert forall|i: int| 0 <= i < b.len() implies is_white_space(#[trigger] b[i]) by {
            assert(joined[a.len() + i] == b[i]);
        }
    }
    assert(seq![c][0] == c);
}

/// White space is what Unicode calls so: the space, the tabulator and the line ends, and the
/// spaces and separators beyond them. No letter, digit or sign is.
pub proof fn law_white_space(c: char)
    ensures
        is_white_space(' ') && is_white_space('\t') && is_white_space('\n') && is_white_space('\r')
            && is_white_space('\u{b}') && is_white_space('\u{c}') && is_white_space('\u{85}')
            && is_white_space('\u{a0}') && is_white_space('\u{1680}') && is_white_space(
            '\u{2028}',
        ) && is_white_space('\u{2029}') && is_white_space('\u{202f}') && is_white_space(
            '\u{205f}',
        ) && is_white_space('\u{3000}'),
        '\u{2000}' <= c && c <= '\u{200a}' ==> is_white_space(c),
        '!' <= c && c <= '~' ==> !is_white_space(c),
        c <= '\u{8}' || ('\u{e}' <= c && c <= '\u{1f}') ==> !is_white_space(c),
        '\u{a1}' <= c && c <= '\u{167f}' ==> !is_white_space(c),
        '\u{1681}' <= c && c <= '\u{1fff}' ==> !is_white_space(c),
        '\u{200b}' <= c && c <= '\u{2027}' ==> !is_white_space(c),
        '\u{2060}' <= c && c <= '\u{2fff}' ==> !is_white_space(c),
        '\u{3001}' <= c ==> !is_white_space(c),
        '\u{7f}' <= c && c <= '\u{9f}' && c != '\u{85}' ==> !is_white_space(c),
        '\u{202a}' <= c && c <= '\u{205e}' && c != '\u{202f}' ==> !is_white_space(c),
{
}

/// A text holds exactly the texts that it can be taken apart around.
pub proof fn law_held_texts(before: Seq<char>, needle: Seq<char>, after: Seq<char>)
    ensures
        contains_text(before + needle + after, needle),
        forall|text: Seq<char>| #[trigger]
            contains_text(text, needle) ==> exists|head: Seq<char>, tail: Seq<char>|
                text == #[trigger] (head + needle + tail),
{
    assert forall|text: Seq<char>| #[trigger] contains_text(text, needle) implies exists|
        head: Seq<char>,
        tail: Seq<char>,
    | text == #[trigger] (head + needle + tail) by {
        let i = choose|i: int|
            0 <= i <= text.len() - needle.len() && #[trigger] text.subrange(i, i + needle.len())
                == needle;
        let head = text.subrange(0, i);
        let tail = text.subrange(i + needle.len(), text.len() as int);
        assert forall|k: int| 0 <= k < needle.len() implies text[i + k] == #[trigger] needle[k] by {
            assert(text.subrange(i, i + needle.len())[k] == needle[k]);
        }
        assert(text =~= head + needle + tail);
    }
    let whole = before + needle + after;
    let at = before.len() as int;
    assert(whole.subrange(at, at + needle.len()) =~= needle);
}

/// A text that is there is used as it is, and one that is not as the empty text.
pub proof fn law_missing_texts_are_empty(text: Seq<char>)
    ensures
        text_or_empty(Some(text)) == text,
        text_or_empty(None).len() == 0,
{
}

} // verus!
