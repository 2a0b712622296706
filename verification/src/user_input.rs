//! What a user puts in.

use std::path::PathBuf;

use vstd::prelude::*;

use crate::duplicate::Duplicate;
use crate::models::ImageDetail;

verus! {

/// A range of bytes, without its end.
#[derive(Clone, Copy, Debug, PartialEq, Eq, Structural)]
pub struct ByteRange {
    pub start: usize,
    pub end: usize,
}

/// A range of a text that stands for something else, such as an attachment.
#[derive(Clone, Debug, PartialEq)]
pub struct TextElement {
    pub byte_range: ByteRange,
    /// What is shown for the element, where that is not the text in the range.
    pub placeholder: Option<String>,
}

/// What `TextElement` stands for.
#[verifier::ext_equal]
pub struct TextElementView {
    pub byte_range: ByteRange,
    pub placeholder: Option<Seq<char>>,
}

impl DeepView for TextElement {
    type V = TextElementView;

    open spec fn deep_view(&self) -> TextElementView {
        TextElementView {
            byte_range: self.byte_range,
            placeholder: self.placeholder.deep_view(),
        }
    }
}

impl Duplicate for TextElement {
    fn duplicate(&self) -> (copy: Self) {
        let copy = TextElement {
            byte_range: self.byte_range,
            placeholder: self.placeholder.duplicate(),
        };
        assert(copy.deep_view() =~= self.deep_view());
        copy
    }
}

/// One part of what a user puts in.
#[derive(Clone, Debug, PartialEq)]
pub enum UserInput {
    Text { text: String, text_elements: Vec<TextElement> },
    Image { image_url: String, detail: Option<ImageDetail> },
    LocalImage { path: PathBuf, detail: Option<ImageDetail> },
    Skill { name: String, path: PathBuf },
    Mention { name: String, path: String },
}

/// What `UserInput` stands for.
#[verifier::ext_equal]
pub enum UserInputView {
    Text { text: Seq<char>, text_elements: Seq<TextElementView> },
    Image { image_url: Seq<char>, detail: Option<ImageDetail> },
    LocalImage { path: PathBuf, detail: Option<ImageDetail> },
    Skill { name: Seq<char>, path: PathBuf },
    Mention { name: Seq<char>, path: Seq<char> },
}

impl DeepView for UserInput {
    type V = UserInputView;

    open spec fn deep_view(&self) -> UserInputView {
        match self {
            UserInput::Text { text, text_elements } => UserInputView::Text {
                text: text@,
                text_elements: text_elements.deep_view(),
            },
            UserInput::Image { image_url, detail } => UserInputView::Image {
                image_url: image_url@,
                detail: detail.deep_view(),
            },
            UserInput::LocalImage { path, detail } => UserInputView::LocalImage {
                path: *path,
                detail: detail.deep_view(),
            },
            UserInput::Skill { name, path } => UserInputView::Skill {
                name: name@,
                path: *path,
            },
            UserInput::Mention { name, path } => UserInputView::Mention {
                name: name@,
                path: path@,
            },
        }
    }
}

impl Duplicate for UserInput {
    fn duplicate(&self) -> (copy: Self) {
        let copy = match self {
            UserInput::Text { text, text_elements } => UserInput::Text {
                text: text.clone(),
                text_elements: text_elements.duplicate(),
            },
            UserInput::Image { image_url, detail } => UserInput::Image {
                image_url: image_url.clone(),
                detail: *detail,
            },
            UserInput::LocalImage { path, detail } => UserInput::LocalImage {
                path: path.clone(),
                detail: *detail,
            },
            UserInput::Skill { name, path } => UserInput::Skill {
                name: name.clone(),
                path: path.clone(),
            },
            UserInput::Mention { name, path } => UserInput::Mention {
                name: name.clone(),
                path: path.clone(),
            },
        };
        assert(copy.deep_view() =~= self.deep_view());
        copy
    }
}

/// The text in a range of bytes of `text`, if the range lies in the text and neither end is inside
/// a character.
pub open spec fn text_in_range(text: Seq<char>, range: ByteRange) -> Option<Seq<char>> {
    let bytes = vstd::utf8::encode_utf8(text);
    if range.start <= range.end <= bytes.len() && vstd::utf8::is_char_boundary(
        bytes,
        range.start as int,
    ) && vstd::utf8::is_char_boundary(bytes, range.end as int) {
        Some(vstd::utf8::decode_utf8(bytes.subrange(range.start as int, range.end as int)))
    } else {
        None
    }
}

impl TextElementView {
    /// What is shown for the element in `text`.
    pub open spec fn shown(self, text: Seq<char>) -> Option<Seq<char>> {
        match self.placeholder {
            Some(placeholder) => Some(placeholder),
            None => text_in_range(text, self.byte_range),
        }
    }
}

impl TextElement {
    /// Makes an element.
    pub fn new(byte_range: ByteRange, placeholder: Option<String>) -> (element: TextElement)
        ensures
            element.deep_view() == (TextElementView {
                byte_range,
                placeholder: placeholder.deep_view(),
            }),
    {
        TextElement { byte_range, placeholder }
    }

    /// Returns what is shown for the element in `text`: its placeholder, or else the text in its
    /// range.
    pub fn placeholder(&self, text: &str) -> (shown: Option<String>)
        ensures
            shown.deep_view() == self.deep_view().shown(text@),
    {
        match &self.placeholder {
            Some(placeholder) => Some(placeholder.clone()),
            None => slice_of(text, self.byte_range),
        }
    }
}

/// Returns the text in a range of bytes of `text`.
fn slice_of(text: &str, range: ByteRange) -> (slice: Option<String>)
    ensures
        slice.deep_view() == text_in_range(text@, range),
{
    let length: usize = text.as_bytes().len();
    if range.start > range.end || range.end > length {
        return None;
    }
    if !text.is_char_boundary(range.start) || !text.is_char_boundary(range.end) {
        return None;
    }
    let ghost bytes = vstd::utf8::encode_utf8(text@);
    proof {
        broadcast use vstd::utf8::group_utf8_lib;

        assert(vstd::utf8::valid_utf8(bytes));
    }
    let (head, _) = text.split_at(range.end);
    proof {
        broadcast use vstd::utf8::group_utf8_lib;

        let head_bytes = bytes.subrange(0, range.end as int);
        assert(vstd::utf8::valid_utf8(head_bytes));
        if range.start < range.end {
            assert(head_bytes[range.start as int] == bytes[range.start as int]);
        }
        assert(vstd::utf8::is_char_boundary(head_bytes, range.start as int));
    }
    let (_, slice) = head.split_at(range.start);
    proof {
        broadcast use vstd::utf8::group_utf8_lib;

        assert(vstd::utf8::encode_utf8(slice@) =~= bytes.subrange(
            range.start as int,
            range.end as int,
        ));
    }
    Some(slice.to_owned())
}

} // verus!
