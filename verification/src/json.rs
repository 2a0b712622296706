//! JSON values that are carried without being read, and the JSON text of texts and numbers.

use vstd::prelude::*;
use vstd::string::{StrSliceExecFns, StringExecFns};

use crate::duplicate::Duplicate;

verus! {

/// A JSON value: `null`, or the text of any other value.
#[derive(Clone, Debug, PartialEq, Eq)]
pub enum JsonValue {
    Null,
    /// The JSON text of a value that is not `null`.
    Document(String),
}

/// What `JsonValue` stands for.
#[verifier::ext_equal]
pub enum JsonValueView {
    Null,
    Document(Seq<char>),
}

impl DeepView for JsonValue {
    type V = JsonValueView;

    open spec fn deep_view(&self) -> JsonValueView {
        match self {
            JsonValue::Null => JsonValueView::Null,
            JsonValue::Document(text) => JsonValueView::Document(text@),
        }
    }
}

impl Duplicate for JsonValue {
    fn duplicate(&self) -> (copy: Self) {
        match self {
            JsonValue::Null => JsonValue::Null,
            JsonValue::Document(text) => JsonValue::Document(text.clone()),
        }
    }
}

impl JsonValueView {
    /// The JSON text of the value.
    pub open spec fn text(self) -> Seq<char> {
        match self {
            JsonValueView::Null => "null"@,
            JsonValueView::Document(text) => text,
        }
    }

    /// The value, unless it is `null`.
    pub open spec fn non_null(self) -> Option<JsonValueView> {
        match self {
            JsonValueView::Null => None,
            JsonValueView::Document(_) => Some(self),
        }
    }
}

impl JsonValue {
    /// The JSON text of the value.
    pub fn as_str(&self) -> (text: &str)
        ensures
            text@ == self.deep_view().text(),
    {
        match self {
            JsonValue::Null => "null",
            JsonValue::Document(text) => text.as_str(),
        }
    }

    /// A copy of the value, unless it is `null`.
    pub fn non_null(&self) -> (value: Option<JsonValue>)
        ensures
            value.deep_view() == self.deep_view().non_null(),
    {
        match self {
            JsonValue::Null => None,
            JsonValue::Document(_) => Some(self.duplicate()),
        }
    }
}

/// A character as it is written in a JSON text.
pub open spec fn escaped_in_json(c: char) -> Seq<char> {
    if c == '"' {
        "\\\""@
    } else if c == '\\' {
        "\\\\"@
    } else if c == '\u{8}' {
        "\\b"@
    } else if c == '\t' {
        "\\t"@
    } else if c == '\n' {
        "\\n"@
    } else if c == '\u{c}' {
        "\\f"@
    } else if c == '\r' {
        "\\r"@
    } else if c <= '\u{1f}' {
        let digits = "0123456789abcdef"@;
        "\\u00"@ + seq![digits[c as int / 16], digits[c as int % 16]]
    } else {
        seq![c]
    }
}

/// The characters of a text as they are written in JSON.
pub open spec fn json_characters(text: Seq<char>) -> Seq<char>
    decreases text.len(),
{
    if text.len() == 0 {
        seq![]
    } else {
        json_characters(text.drop_last()) + escaped_in_json(text.last())
    }
}

/// The JSON text that stands for a text.
pub open spec fn json_string(text: Seq<char>) -> Seq<char> {
    "\""@ + json_characters(text) + "\""@
}

/// Calls `serde_json::to_string` on a text. It does not fail, and writes the characters between
/// quotes, with quotes, backslashes and control characters escaped.
#[verifier::external_body]
pub(crate) fn write_json_string(text: &str) -> (json: Result<String, serde_json::Error>)
    ensures
        match json {
            Ok(written) => written@ == json_string(text@),
            Err(_) => false,
        },
{
    serde_json::to_string(text)
}

/// The escapes in JSON, character by character.
proof fn lemma_escapes(c: char)
    ensures
        c == '"' ==> escaped_in_json(c) == seq!['\\', '"'],
        c == '\\' ==> escaped_in_json(c) == seq!['\\', '\\'],
        c == '\u{8}' ==> escaped_in_json(c) == seq!['\\', 'b'],
        c == '\t' ==> escaped_in_json(c) == seq!['\\', 't'],
        c == '\n' ==> escaped_in_json(c) == seq!['\\', 'n'],
        c == '\u{c}' ==> escaped_in_json(c) == seq!['\\', 'f'],
        c == '\r' ==> escaped_in_json(c) == seq!['\\', 'r'],
        escaped_in_json(c).len() > 0,
        escaped_in_json(c).len() == 1 ==> escaped_in_json(c) == seq![c] && c != '\\',
        escaped_in_json(c).len() == 2 ==> c == '"' || c == '\\' || c == '\u{8}' || c == '\t' || c
            == '\n' || c == '\u{c}' || c == '\r',
        escaped_in_json(c).len() > 2 ==> c <= '\u{1f}' && escaped_in_json(c).len() == 6
            && escaped_in_json(c)[0] == '\\' && escaped_in_json(c)[1] == 'u'
            && escaped_in_json(c)[4] as int == 48 + c as int / 16 && escaped_in_json(c)[5] as int
            == if c as int % 16 < 10 {
            48 + c as int % 16
        } else {
            87 + c as int % 16
        },
{
    reveal_strlit("\\\"");
    reveal_strlit("\\\\");
    reveal_strlit("\\b");
    reveal_strlit("\\t");
    reveal_strlit("\\n");
    reveal_strlit("\\f");
    reveal_strlit("\\r");
    reveal_strlit("\\u00");
    reveal_strlit("0123456789abcdef");
}

/// What follows an escape does not change which character it stands for.
proof fn lemma_escape_is_recognized(a: char, b: char, after_a: Seq<char>, after_b: Seq<char>)
    requires
        escaped_in_json(a) + after_a == escaped_in_json(b) + after_b,
    ensures
        a == b,
        after_a == after_b,
{
    lemma_escapes(a);
    lemma_escapes(b);
    let left = escaped_in_json(a) + after_a;
    let right = escaped_in_json(b) + after_b;
    assert(left[0] == right[0]);
    if escaped_in_json(a).len() > 1 && escaped_in_json(b).len() > 1 {
        assert(left[1] == right[1]);
        if escaped_in_json(a).len() > 2 && escaped_in_json(b).len() > 2 {
            assert(left[4] == right[4]);
            assert(left[5] == right[5]);
        }
    }
    assert(a == b);
    let start = escaped_in_json(a).len() as int;
    assert(after_a =~= left.skip(start));
    assert(after_b =~= right.skip(start));
}

/// The first character of a text is written first.
proof fn lemma_first_character(text: Seq<char>)
    requires
        text.len() > 0,
    ensures
        json_characters(text) == escaped_in_json(text[0]) + json_characters(text.drop_first()),
    decreases text.len(),
{
    let front = text.drop_last();
    if front.len() == 0 {
        assert(text.drop_first() =~= front);
        assert(json_characters(text) =~= escaped_in_json(text[0]) + json_characters(front));
    } else {
        lemma_first_character(front);
        assert(front.drop_first() =~= text.drop_first().drop_last());
        assert(json_characters(text) =~= escaped_in_json(text[0]) + json_characters(
            text.drop_first(),
        ));
    }
}

proof fn lemma_characters_are_recognized(a: Seq<char>, b: Seq<char>)
    requires
        json_characters(a) == json_characters(b),
    ensures
        a == b,
    decreases a.len(),
{
    if a.len() > 0 {
        lemma_first_character(a);
        lemma_escapes(a[0]);
    }
    if b.len() > 0 {
        lemma_first_character(b);
        lemma_escapes(b[0]);
    }
    if a.len() > 0 && b.len() > 0 {
        lemma_escape_is_recognized(
            a[0],
            b[0],
            json_characters(a.drop_first()),
            json_characters(b.drop_first()),
        );
        lemma_characters_are_recognized(a.drop_first(), b.drop_first());
        assert(a =~= seq![a[0]] + a.drop_first());
        assert(b =~= seq![b[0]] + b.drop_first());
    } else {
        assert(a =~= b);
    }
}

/// Different texts are written differently in JSON.
pub proof fn law_texts_have_their_own_json(a: Seq<char>, b: Seq<char>)
    requires
        a != b,
    ensures
        json_string(a) != json_string(b),
{
    if json_string(a) == json_string(b) {
        reveal_strlit("\"");
        let left = json_string(a);
        let right = json_string(b);
        assert(json_characters(a) =~= left.subrange(1, left.len() - 1));
        assert(json_characters(b) =~= right.subrange(1, right.len() - 1));
        lemma_characters_are_recognized(a, b);
    }
}

/// The decimal digits of a number.
pub open spec fn decimal_text(number: nat) -> Seq<char>
    decreases number,
{
    let last = "0123456789"@[(number % 10) as int];
    if number < 10 {
        seq![last]
    } else {
        decimal_text(number / 10).push(last)
    }
}

/// Writes a number with decimal digits.
pub fn write_decimal(number: u64) -> (text: String)
    ensures
        text@ == decimal_text(number as nat),
    decreases number,
{
    proof {
        reveal_strlit("0123456789");
    }
    let digit: usize = (number % 10) as usize;
    let last = "0123456789".substring_char(digit, digit + 1);
    let mut text: String = String::new();
    if number >= 10 {
        text = write_decimal(number / 10);
    }
    text.append(last);
    assert(text@ =~= decimal_text(number as nat));
    text
}

/// A text in JSON stands between two quotation marks, and is written part by part.
pub proof fn law_json_is_written_part_by_part(a: Seq<char>, b: Seq<char>)
    ensures
        json_characters(a + b) == json_characters(a) + json_characters(b),
        json_string(a) == seq!['"'] + json_characters(a) + seq!['"'],
    decreases b.len(),
{
    reveal_strlit("\"");
    assert("\""@ =~= seq!['"']);
    if b.len() == 0 {
        assert(a + b =~= a);
        assert(json_characters(a) + json_characters(b) =~= json_characters(a));
    } else {
        law_json_is_written_part_by_part(a, b.drop_last());
        assert((a + b).drop_last() =~= a + b.drop_last());
        assert((a + b).last() == b.last());
        assert(json_characters(a) + (json_characters(b.drop_last()) + escaped_in_json(b.last()))
            =~= json_characters(a) + json_characters(b.drop_last()) + escaped_in_json(b.last()));
    }
}

/// A character is written in JSON as itself, unless it is a quotation mark, a backslash or a
/// control character: those are written with a backslash, and the control characters without a
/// letter of their own by their number.
pub proof fn law_json_characters(c: char)
    ensures
        c != '"' && c != '\\' && '\u{20}' <= c ==> json_characters(seq![c]) == seq![c],
        json_characters(seq!['"']) == seq!['\\', '"'],
        json_characters(seq!['\\']) == seq!['\\', '\\'],
        json_characters(seq!['\n']) == seq!['\\', 'n'],
        json_characters(seq!['\r']) == seq!['\\', 'r'],
        json_characters(seq!['\t']) == seq!['\\', 't'],
        json_characters(seq!['\u{8}']) == seq!['\\', 'b'],
        json_characters(seq!['\u{c}']) == seq!['\\', 'f'],
        c <= '\u{1f}' && c != '\n' && c != '\r' && c != '\t' && c != '\u{8}' && c != '\u{c}'
            ==> json_characters(seq![c]) == seq!['\\', 'u', '0', '0'] + seq![
            "0123456789abcdef"@[c as int / 16],
            "0123456789abcdef"@[c as int % 16],
        ],
{
    reveal_strlit("\\\"");
    reveal_strlit("\\\\");
    reveal_strlit("\\b");
    reveal_strlit("\\t");
    reveal_strlit("\\n");
    reveal_strlit("\\f");
    reveal_strlit("\\r");
    reveal_strlit("\\u00");
    lemma_json_of_one(c);
    lemma_json_of_one('"');
    lemma_json_of_one('\\');
    lemma_json_of_one('\n');
    lemma_json_of_one('\r');
    lemma_json_of_one('\t');
    lemma_json_of_one('\u{8}');
    lemma_json_of_one('\u{c}');
    assert("\\u00"@ =~= seq!['\\', 'u', '0', '0']);
}

proof fn lemma_json_of_one(c: char)
    ensures
        json_characters(seq![c]) == escaped_in_json(c),
{
    assert(seq![c].drop_last() =~= seq![]);
    assert(json_characters(seq![]) =~= seq![]);
    assert(seq![c].last() == c);
    assert(json_characters(seq![c]) =~= escaped_in_json(c));
}

/// A value that is a document has its own text, and `null` that of JSON; `null` is left out where
/// only values count.
pub proof fn law_json_values(text: Seq<char>)
    ensures
        JsonValueView::Null.text() == "null"@,
        JsonValueView::Document(text).text() == text,
        JsonValueView::Null.non_null() is None,
        JsonValueView::Document(text).non_null() == Some(JsonValueView::Document(text)),
{
}

/// A number is written digit by digit, with no zero in front: ten times a number and a digit is
/// that number and then the digit.
pub proof fn law_numbers_are_written_digit_by_digit(number: nat, digit: nat)
    requires
        digit < 10,
    ensures
        decimal_text(digit) == seq!["0123456789"@[digit as int]],
        number > 0 ==> decimal_text(10 * number + digit) == decimal_text(number).push(
            "0123456789"@[digit as int],
        ),
{
    assert((10 * number + digit) / 10 == number);
    assert((10 * number + digit) % 10 == digit);
}

} // verus!
