//! Messages of the user and of the agent, plans and reasoning.

use std::path::PathBuf;

use vstd::prelude::*;
use vstd::string::StringExecFns;

use crate::duplicate::{duplicate_slice, Duplicate};
use crate::ids::random_uuid;
use crate::models::{ImageDetail, MemoryCitation, MemoryCitationView, MessagePhase};
use crate::protocol::{
    AgentMessageEvent, AgentMessageEventView, AgentReasoningEvent, AgentReasoningEventView,
    AgentReasoningRawContentEvent, AgentReasoningRawContentEventView, EventMsg, EventMsgView,
    UserMessageEvent, UserMessageEventView,
};
use crate::user_input::{ByteRange, TextElement, TextElementView, UserInput, UserInputView};

verus! {

/// A message of the user.
#[derive(Clone, Debug, PartialEq)]
pub struct UserMessageItem {
    pub id: String,
    pub client_id: Option<String>,
    pub content: Vec<UserInput>,
}

/// What `UserMessageItem` stands for.
#[verifier::ext_equal]
pub struct UserMessageItemView {
    pub id: Seq<char>,
    pub client_id: Option<Seq<char>>,
    pub content: Seq<UserInputView>,
}

impl DeepView for UserMessageItem {
    type V = UserMessageItemView;

    open spec fn deep_view(&self) -> UserMessageItemView {
        UserMessageItemView {
            id: self.id@,
            client_id: self.client_id.deep_view(),
            content: self.content.deep_view(),
        }
    }
}

/// A part of a message of the agent.
#[derive(Clone, Debug, PartialEq)]
pub enum AgentMessageContent {
    Text { text: String },
}

/// What `AgentMessageContent` stands for.
#[verifier::ext_equal]
pub enum AgentMessageContentView {
    Text { text: Seq<char> },
}

impl DeepView for AgentMessageContent {
    type V = AgentMessageContentView;

    open spec fn deep_view(&self) -> AgentMessageContentView {
        match self {
            AgentMessageContent::Text { text } => AgentMessageContentView::Text {
                text: text@,
            },
        }
    }
}

impl Duplicate for AgentMessageContent {
    fn duplicate(&self) -> (copy: Self) {
        let copy = match self {
            AgentMessageContent::Text { text } => AgentMessageContent::Text {
                text: text.clone(),
            },
        };
        assert(copy.deep_view() =~= self.deep_view());
        copy
    }
}

/// A message of the agent.
#[derive(Clone, Debug, PartialEq)]
pub struct AgentMessageItem {
    pub id: String,
    pub content: Vec<AgentMessageContent>,
    /// What the message is within its turn, where the model says so.
    pub phase: Option<MessagePhase>,
    pub memory_citation: Option<MemoryCitation>,
}

/// What `AgentMessageItem` stands for.
#[verifier::ext_equal]
pub struct AgentMessageItemView {
    pub id: Seq<char>,
    pub content: Seq<AgentMessageContentView>,
    pub phase: Option<MessagePhase>,
    pub memory_citation: Option<MemoryCitationView>,
}

impl DeepView for AgentMessageItem {
    type V = AgentMessageItemView;

    open spec fn deep_view(&self) -> AgentMessageItemView {
        AgentMessageItemView {
            id: self.id@,
            content: self.content.deep_view(),
            phase: self.phase.deep_view(),
            memory_citation: self.memory_citation.deep_view(),
        }
    }
}

/// A plan.
#[derive(Clone, Debug, PartialEq)]
pub struct PlanItem {
    pub id: String,
    pub text: String,
}

/// What `PlanItem` stands for.
#[verifier::ext_equal]
pub struct PlanItemView {
    pub id: Seq<char>,
    pub text: Seq<char>,
}

impl DeepView for PlanItem {
    type V = PlanItemView;

    open spec fn deep_view(&self) -> PlanItemView {
        PlanItemView {
            id: self.id@,
            text: self.text@,
        }
    }
}

/// Reasoning of the agent.
#[derive(Clone, Debug, PartialEq)]
pub struct ReasoningItem {
    pub id: String,
    pub summary_text: Vec<String>,
    pub raw_content: Vec<String>,
}

/// What `ReasoningItem` stands for.
#[verifier::ext_equal]
pub struct ReasoningItemView {
    pub id: Seq<char>,
    pub summary_text: Seq<Seq<char>>,
    pub raw_content: Seq<Seq<char>>,
}

impl DeepView for ReasoningItem {
    type V = ReasoningItemView;

    open spec fn deep_view(&self) -> ReasoningItemView {
        ReasoningItemView {
            id: self.id@,
            summary_text: self.summary_text.deep_view(),
            raw_content: self.raw_content.deep_view(),
        }
    }
}

/// The text that an input contributes to the message: only text inputs contribute any.
pub open spec fn input_text(input: UserInputView) -> Seq<char> {
    match input {
        UserInputView::Text { text, text_elements } => text,
        _ => seq![],
    }
}

/// The text inputs, one after the other.
pub open spec fn message_of(content: Seq<UserInputView>) -> Seq<char>
    decreases content.len(),
{
    if content.len() == 0 {
        seq![]
    } else {
        message_of(content.drop_last()) + input_text(content.last())
    }
}

/// The length of a text in bytes.
pub open spec fn byte_len(text: Seq<char>) -> nat {
    vstd::utf8::encode_utf8(text).len()
}

/// The range, moved by `offset` bytes.
pub open spec fn moved_range(range: ByteRange, offset: nat) -> ByteRange {
    ByteRange { start: (range.start + offset) as usize, end: (range.end + offset) as usize }
}

/// The elements of an input that starts `offset` bytes into the message, with their ranges moved
/// to the message, and with what is shown for them in the input.
pub open spec fn moved_elements(input: UserInputView, offset: nat) -> Seq<TextElementView> {
    match input {
        UserInputView::Text { text, text_elements } => Seq::new(
            text_elements.len(),
            |i: int|
                TextElementView {
                    byte_range: moved_range(text_elements[i].byte_range, offset),
                    placeholder: text_elements[i].shown(text),
                },
        ),
        _ => seq![],
    }
}

/// The elements of all inputs, with their ranges moved to the message.
pub open spec fn elements_of(content: Seq<UserInputView>) -> Seq<TextElementView>
    decreases content.len(),
{
    if content.len() == 0 {
        seq![]
    } else {
        elements_of(content.drop_last()) + moved_elements(
            content.last(),
            byte_len(message_of(content.drop_last())),
        )
    }
}

/// Every end of a moved range, and the length of the message, can be represented.
pub open spec fn ranges_fit(content: Seq<UserInputView>) -> bool
    decreases content.len(),
{
    content.len() > 0 ==> {
        let offset = byte_len(message_of(content.drop_last()));
        &&& ranges_fit(content.drop_last())
        &&& offset + byte_len(input_text(content.last())) <= usize::MAX
        &&& match content.last() {
            UserInputView::Text { text, text_elements } => forall|i: int|
                0 <= i < text_elements.len() ==> (#[trigger] text_elements[i]).byte_range.start
                    + offset <= usize::MAX && text_elements[i].byte_range.end + offset
                    <= usize::MAX,
            _ => true,
        }
    }
}

/// The images of the inputs.
pub open spec fn image_urls_of(content: Seq<UserInputView>) -> Seq<Seq<char>>
    decreases content.len(),
{
    if content.len() == 0 {
        seq![]
    } else {
        image_urls_of(content.drop_last()) + match content.last() {
            UserInputView::Image { image_url, detail } => seq![image_url],
            _ => seq![],
        }
    }
}

/// The details of the images of the inputs.
pub open spec fn image_details_of(content: Seq<UserInputView>) -> Seq<Option<ImageDetail>>
    decreases content.len(),
{
    if content.len() == 0 {
        seq![]
    } else {
        image_details_of(content.drop_last()) + match content.last() {
            UserInputView::Image { image_url, detail } => seq![detail],
            _ => seq![],
        }
    }
}

/// The local images of the inputs.
pub open spec fn local_images_of(content: Seq<UserInputView>) -> Seq<PathBuf>
    decreases content.len(),
{
    if content.len() == 0 {
        seq![]
    } else {
        local_images_of(content.drop_last()) + match content.last() {
            UserInputView::LocalImage { path, detail } => seq![path],
            _ => seq![],
        }
    }
}

/// The details of the local images of the inputs.
pub open spec fn local_image_details_of(content: Seq<UserInputView>) -> Seq<Option<ImageDetail>>
    decreases content.len(),
{
    if content.len() == 0 {
        seq![]
    } else {
        local_image_details_of(content.drop_last()) + match content.last() {
            UserInputView::LocalImage { path, detail } => seq![detail],
            _ => seq![],
        }
    }
}

/// The details without the default ones at the end.
pub open spec fn trimmed_details(details: Seq<Option<ImageDetail>>) -> Seq<Option<ImageDetail>>
    decreases details.len(),
{
    if details.len() > 0 && details.last() is None {
        trimmed_details(details.drop_last())
    } else {
        details
    }
}

/// Takes the default details off the end.
pub fn trim_trailing_default_image_details(details: Vec<Option<ImageDetail>>) -> (r: Vec<
    Option<ImageDetail>,
>)
    ensures
        r@ == trimmed_details(details@),
{
    let mut details = details;
    let ghost all = details@;
    while details.len() > 0 && details[details.len() - 1].is_none()
        invariant
            trimmed_details(all) == trimmed_details(details@),
        decreases details@.len(),
    {
        let ghost before = details@;
        let _ = details.pop();
        assert(details@ =~= before.drop_last());
    }
    details
}

impl UserMessageItemView {
    /// The event that reports the message.
    pub open spec fn legacy_event(self) -> EventMsgView {
        EventMsgView::UserMessage(
            UserMessageEventView {
                client_id: self.client_id,
                message: message_of(self.content),
                images: Some(image_urls_of(self.content)),
                image_details: trimmed_details(image_details_of(self.content)),
                local_images: local_images_of(self.content),
                local_image_details: trimmed_details(local_image_details_of(self.content)),
                text_elements: elements_of(self.content),
            },
        )
    }
}

impl UserMessageItem {
    /// Makes a message with an identity of its own.
    pub fn new(content: &[UserInput]) -> (item: UserMessageItem)
        ensures
            crate::ids::is_uuid_v4(item.id@),
            item.client_id is None,
            item.deep_view().content == Seq::new(
                content@.len(),
                |i: int| content@[i].deep_view(),
            ),
    {
        UserMessageItem { id: random_uuid(), client_id: None, content: duplicate_slice(content) }
    }

    /// Makes the event that reports the message: it holds the text inputs as one text, and the
    /// ranges of their elements moved to it.
    pub fn as_legacy_event(&self) -> (event: EventMsg)
        requires
            ranges_fit(self.deep_view().content),
        ensures
            event.deep_view() == self.deep_view().legacy_event(),
    {
        let event = UserMessageEvent {
            client_id: self.client_id.duplicate(),
            message: self.message(),
            images: Some(self.image_urls()),
            image_details: self.image_details(),
            local_images: self.local_image_paths(),
            local_image_details: self.local_image_details(),
            text_elements: self.text_elements(),
        };
        assert(event.deep_view().image_details =~= event.image_details@);
        assert(event.deep_view().local_image_details =~= event.local_image_details@);
        EventMsg::UserMessage(event)
    }

    /// Returns the text inputs as one text.
    pub fn message(&self) -> (message: String)
        ensures
            message@ == message_of(self.deep_view().content),
    {
        let ghost views = self.content.deep_view();
        let mut message: String = String::new();
        let mut index: usize = 0;
        assert(message@ =~= seq![]);
        while index < self.content.len()
            invariant
                index <= self.content@.len(),
                views == self.content.deep_view(),
                message@ == message_of(views.take(index as int)),
            decreases self.content@.len() - index,
        {
            proof {
                assert(views.take(index + 1).drop_last() =~= views.take(index as int));
                assert(views.take(index + 1).last() == self.content@[index as int].deep_view());
            }
            match &self.content[index] {
                UserInput::Text { text, .. } => {
                    message.append(text.as_str());
                },
                _ => {
                    assert(message@ + input_text(views[index as int]) =~= message@);
                },
            }
            index += 1;
        }
        assert(views.take(views.len() as int) =~= views);
        message
    }

    /// Returns the elements of the text inputs, with their ranges moved to the one text that
    /// `message` returns.
    pub fn text_elements(&self) -> (elements: Vec<TextElement>)
        requires
            ranges_fit(self.deep_view().content),
        ensures
            elements.deep_view() == elements_of(self.deep_view().content),
    {
        let ghost views = self.content.deep_view();
        let mut out: Vec<TextElement> = Vec::new();
        let mut offset: usize = 0;
        let mut index: usize = 0;
        proof {
            assert(out.deep_view() =~= seq![]);
        }
        while index < self.content.len()
            invariant
                index <= self.content@.len(),
                views == self.content.deep_view(),
                ranges_fit(views),
                out.deep_view() == elements_of(views.take(index as int)),
                offset == byte_len(message_of(views.take(index as int))),
            decreases self.content@.len() - index,
        {
            proof {
                assert(views.take(index + 1).drop_last() =~= views.take(index as int));
                assert(views.take(index + 1).last() == self.content@[index as int].deep_view());
                lemma_ranges_fit_prefix(views, index + 1);
            }
            match &self.content[index] {
                UserInput::Text { text, text_elements } => {
                    proof {
                        let element_views = text_elements.deep_view();
                        assert forall|i: int| 0 <= i < text_elements@.len() implies (
                        #[trigger] text_elements@[i]).byte_range.start + offset <= usize::MAX
                            && text_elements@[i].byte_range.end + offset <= usize::MAX by {
                            assert(element_views[i] == text_elements@[i].deep_view());
                        }
                    }
                    push_moved_elements(&mut out, text.as_str(), text_elements, offset);
                    proof {
                        lemma_encode_utf8_concat(message_of(views.take(index as int)), text@);
                    }
                    offset = offset + text.as_str().as_bytes().len();
                },
                _ => {
                    proof {
                        assert(out.deep_view() + moved_elements(views[index as int], offset as nat)
                            =~= out.deep_view());
                        assert(message_of(views.take(index as int)) + input_text(
                            views[index as int],
                        ) =~= message_of(views.take(index as int)));
                    }
                },
            }
            index += 1;
        }
        assert(views.take(views.len() as int) =~= views);
        out
    }

    /// Tests whether the ranges of all elements can be moved to the one text that `message`
    /// returns.
    pub fn text_ranges_fit(&self) -> (r: bool)
        ensures
            r == ranges_fit(self.deep_view().content),
    {
        let ghost views = self.content.deep_view();
        let mut offset: usize = 0;
        let mut index: usize = 0;
        while index < self.content.len()
            invariant
                index <= self.content@.len(),
                views == self.content.deep_view(),
                ranges_fit(views.take(index as int)),
                offset == byte_len(message_of(views.take(index as int))),
            decreases self.content@.len() - index,
        {
            proof {
                assert(views.take(index + 1).drop_last() =~= views.take(index as int));
                assert(views.take(index + 1).last() == self.content@[index as int].deep_view());
                if ranges_fit(views) {
                    lemma_ranges_fit_prefix(views, index + 1);
                }
            }
            match &self.content[index] {
                UserInput::Text { text, text_elements } => {
                    proof {
                        lemma_encode_utf8_concat(message_of(views.take(index as int)), text@);
                    }
                    let length: usize = text.as_str().as_bytes().len();
                    if usize::MAX - offset < length || !elements_fit(text_elements, offset) {
                        return false;
                    }
                    offset = offset + length;
                },
                _ => {
                    assert(message_of(views.take(index as int)) + input_text(views[index as int])
                        =~= message_of(views.take(index as int)));
                },
            }
            index += 1;
        }
        assert(views.take(views.len() as int) =~= views);
        true
    }

    /// Returns the images.
    pub fn image_urls(&self) -> (urls: Vec<String>)
        ensures
            urls.deep_view() == image_urls_of(self.deep_view().content),
    {
        let ghost views = self.content.deep_view();
        let mut urls: Vec<String> = Vec::new();
        let mut index: usize = 0;
        assert(urls.deep_view() =~= seq![]);
        while index < self.content.len()
            invariant
                index <= self.content@.len(),
                views == self.content.deep_view(),
                urls.deep_view() == image_urls_of(views.take(index as int)),
            decreases self.content@.len() - index,
        {
            let ghost before = urls.deep_view();
            proof {
                assert(views.take(index + 1).drop_last() =~= views.take(index as int));
                assert(views.take(index + 1).last() == self.content@[index as int].deep_view());
            }
            match &self.content[index] {
                UserInput::Image { image_url, .. } => {
                    urls.push(image_url.clone());
                    assert(urls.deep_view() =~= before + seq![image_url@]);
                },
                _ => {
                    assert(urls.deep_view() =~= before + seq![]);
                },
            }
            index += 1;
        }
        assert(views.take(views.len() as int) =~= views);
        urls
    }

    /// Returns the details of the images, without the default ones at the end.
    pub fn image_details(&self) -> (details: Vec<Option<ImageDetail>>)
        ensures
            details@ == trimmed_details(image_details_of(self.deep_view().content)),
    {
        let ghost views = self.content.deep_view();
        let mut details: Vec<Option<ImageDetail>> = Vec::new();
        let mut index: usize = 0;
        while index < self.content.len()
            invariant
                index <= self.content@.len(),
                views == self.content.deep_view(),
                details@ == image_details_of(views.take(index as int)),
            decreases self.content@.len() - index,
        {
            let ghost before = details@;
            proof {
                assert(views.take(index + 1).drop_last() =~= views.take(index as int));
                assert(views.take(index + 1).last() == self.content@[index as int].deep_view());
            }
            match &self.content[index] {
                UserInput::Image { detail, .. } => {
                    details.push(*detail);
                    assert(detail.deep_view() == *detail);
                    assert(details@ =~= before + seq![*detail]);
                },
                _ => {
                    assert(details@ =~= before + seq![]);
                },
            }
            index += 1;
        }
        assert(views.take(views.len() as int) =~= views);
        trim_trailing_default_image_details(details)
    }

    /// Returns the paths of the local images.
    pub fn local_image_paths(&self) -> (paths: Vec<PathBuf>)
        ensures
            paths@ == local_images_of(self.deep_view().content),
    {
        let ghost views = self.content.deep_view();
        let mut paths: Vec<PathBuf> = Vec::new();
        let mut index: usize = 0;
        while index < self.content.len()
            invariant
                index <= self.content@.len(),
                views == self.content.deep_view(),
                paths@ == local_images_of(views.take(index as int)),
            decreases self.content@.len() - index,
        {
            let ghost before = paths@;
            proof {
                assert(views.take(index + 1).drop_last() =~= views.take(index as int));
                assert(views.take(index + 1).last() == self.content@[index as int].deep_view());
            }
            match &self.content[index] {
                UserInput::LocalImage { path, .. } => {
                    paths.push(path.clone());
                    assert(paths@ =~= before + seq![*path]);
                },
                _ => {
                    assert(paths@ =~= before + seq![]);
                },
            }
            index += 1;
        }
        assert(views.take(views.len() as int) =~= views);
        paths
    }

    /// Returns the details of the local images, without the default ones at the end.
    pub fn local_image_details(&self) -> (details: Vec<Option<ImageDetail>>)
        ensures
            details@ == trimmed_details(local_image_details_of(self.deep_view().content)),
    {
        let ghost views = self.content.deep_view();
        let mut details: Vec<Option<ImageDetail>> = Vec::new();
        let mut index: usize = 0;
        while index < self.content.len()
            invariant
                index <= self.content@.len(),
                views == self.content.deep_view(),
                details@ == local_image_details_of(views.take(index as int)),
            decreases self.content@.len() - index,
        {
            let ghost before = details@;
            proof {
                assert(views.take(index + 1).drop_last() =~= views.take(index as int));
                assert(views.take(index + 1).last() == self.content@[index as int].deep_view());
            }
            match &self.content[index] {
                UserInput::LocalImage { detail, .. } => {
                    details.push(*detail);
                    assert(detail.deep_view() == *detail);
                    assert(details@ =~= before + seq![*detail]);
                },
                _ => {
                    assert(details@ =~= before + seq![]);
                },
            }
            index += 1;
        }
        assert(views.take(views.len() as int) =~= views);
        trim_trailing_default_image_details(details)
    }
}

/// Tests whether the ranges of the elements can be moved by `offset` bytes.
fn elements_fit(text_elements: &Vec<TextElement>, offset: usize) -> (r: bool)
    ensures
        r == forall|i: int|
            0 <= i < text_elements.deep_view().len() ==> (
            #[trigger] text_elements.deep_view()[i]).byte_range.start + offset <= usize::MAX
                && text_elements.deep_view()[i].byte_range.end + offset <= usize::MAX,
{
    let ghost views = text_elements.deep_view();
    let mut index: usize = 0;
    while index < text_elements.len()
        invariant
            index <= text_elements@.len(),
            views == text_elements.deep_view(),
            forall|i: int|
                0 <= i < index ==> (#[trigger] views[i]).byte_range.start + offset <= usize::MAX
                    && views[i].byte_range.end + offset <= usize::MAX,
        decreases text_elements@.len() - index,
    {
        let range = text_elements[index].byte_range;
        assert(views[index as int].byte_range == range);
        if usize::MAX - offset < range.start || usize::MAX - offset < range.end {
            return false;
        }
        index += 1;
    }
    true
}

/// Adds the elements of a text input that starts `offset` bytes into the message.
fn push_moved_elements(
    out: &mut Vec<TextElement>,
    text: &str,
    text_elements: &Vec<TextElement>,
    offset: usize,
)
    requires
        forall|i: int|
            0 <= i < text_elements@.len() ==> (#[trigger] text_elements@[i]).byte_range.start
                + offset <= usize::MAX && text_elements@[i].byte_range.end + offset <= usize::MAX,
    ensures
        final(out).deep_view() == old(out).deep_view() + moved_elements(
            UserInputView::Text { text: text@, text_elements: text_elements.deep_view() },
            offset as nat,
        ),
{
    let ghost moved = moved_elements(
        UserInputView::Text { text: text@, text_elements: text_elements.deep_view() },
        offset as nat,
    );
    let ghost before = out.deep_view();
    let mut index: usize = 0;
    assert(before + moved.take(0) =~= before);
    while index < text_elements.len()
        invariant
            index <= text_elements@.len(),
            moved == moved_elements(
                UserInputView::Text { text: text@, text_elements: text_elements.deep_view() },
                offset as nat,
            ),
            forall|i: int|
                0 <= i < text_elements@.len() ==> (#[trigger] text_elements@[i]).byte_range.start
                    + offset <= usize::MAX && text_elements@[i].byte_range.end + offset
                    <= usize::MAX,
            out.deep_view() == before + moved.take(index as int),
        decreases text_elements@.len() - index,
    {
        let ghost shown_so_far = out.deep_view();
        let element = &text_elements[index];
        let byte_range = ByteRange {
            start: offset + element.byte_range.start,
            end: offset + element.byte_range.end,
        };
        out.push(TextElement::new(byte_range, element.placeholder(text)));
        proof {
            assert(out.deep_view() =~= shown_so_far.push(moved[index as int]));
            assert(before + moved.take(index + 1) =~= (before + moved.take(index as int)).push(
                moved[index as int],
            ));
        }
        index += 1;
    }
    assert(moved.take(moved.len() as int) =~= moved);
}

proof fn lemma_ranges_fit_prefix(content: Seq<UserInputView>, count: int)
    requires
        0 <= count <= content.len(),
        ranges_fit(content),
    ensures
        ranges_fit(content.take(count)),
    decreases content.len(),
{
    if count == content.len() {
        assert(content.take(count) =~= content);
    } else {
        lemma_ranges_fit_prefix(content.drop_last(), count);
        assert(content.drop_last().take(count) =~= content.take(count));
    }
}

/// The bytes of two texts in a row are the bytes of the one and then those of the other.
pub proof fn lemma_encode_utf8_concat(a: Seq<char>, b: Seq<char>)
    ensures
        vstd::utf8::encode_utf8(a + b) == vstd::utf8::encode_utf8(a) + vstd::utf8::encode_utf8(b),
    decreases a.len(),
{
    if a.len() == 0 {
        assert(a + b =~= b);
        assert(vstd::utf8::encode_utf8(a) + vstd::utf8::encode_utf8(b)
            =~= vstd::utf8::encode_utf8(b));
    } else {
        lemma_encode_utf8_concat(a.drop_first(), b);
        assert((a + b).drop_first() =~= a.drop_first() + b);
        assert((a + b)[0] == a[0]);
        assert(vstd::utf8::encode_utf8(a + b) =~= vstd::utf8::encode_utf8(a)
            + vstd::utf8::encode_utf8(b));
    }
}

/// The range of an element that was moved to the message covers there what it covered in its
/// input.
pub proof fn law_text_elements_align_with_message(
    content: Seq<UserInputView>,
    input: int,
    element: int,
)
    requires
        ranges_fit(content),
        0 <= input < content.len(),
        content[input] matches UserInputView::Text { text, text_elements } && 0 <= element
            < text_elements.len() && crate::user_input::text_in_range(
            text,
            text_elements[element].byte_range,
        ) is Some,
    ensures
        ({
            let before = content.take(input);
            let text = content[input]->text;
            let range = content[input]->text_elements[element].byte_range;
            let at = elements_of(before).len() + element;
            &&& at < elements_of(content).len()
            &&& crate::user_input::text_in_range(
                message_of(content),
                elements_of(content)[at].byte_range,
            ) == crate::user_input::text_in_range(text, range)
        }),
    decreases content.len(),
{
    let before = content.take(input);
    let text = content[input]->text;
    let range = content[input]->text_elements[element].byte_range;
    let offset = byte_len(message_of(before));
    let at = elements_of(before).len() + element;
    lemma_elements_of_split(content, input);
    lemma_ranges_fit_prefix(content, input + 1);
    assert(content.take(input + 1).drop_last() =~= before);
    let moved = moved_elements(content[input], offset);
    let start = elements_of(before).len() as int;
    assert(elements_of(content).subrange(start, start + moved.len())[element] == moved[element]);
    assert(elements_of(content)[at].byte_range == moved_range(range, offset));
    lemma_message_of_split(content, input);
    let rest = choose|rest: Seq<char>|
        message_of(content) == message_of(before) + text + rest;
    lemma_slice_within(message_of(before), text, rest, range);
}

proof fn lemma_message_of_split(content: Seq<UserInputView>, input: int)
    requires
        0 <= input < content.len(),
    ensures
        exists|rest: Seq<char>|
            message_of(content) == message_of(content.take(input)) + input_text(content[input])
                + rest,
    decreases content.len(),
{
    let head = message_of(content.take(input)) + input_text(content[input]);
    if input == content.len() - 1 {
        assert(content.take(input) =~= content.drop_last());
        assert(message_of(content) =~= head + Seq::<char>::empty());
    } else {
        lemma_message_of_split(content.drop_last(), input);
        assert(content.drop_last().take(input) =~= content.take(input));
        let rest = choose|rest: Seq<char>| message_of(content.drop_last()) == head + rest;
        assert(message_of(content) =~= head + (rest + input_text(content.last())));
    }
}

proof fn lemma_elements_of_split(content: Seq<UserInputView>, input: int)
    requires
        0 <= input < content.len(),
    ensures
        ({
            let moved = moved_elements(
                content[input],
                byte_len(message_of(content.take(input))),
            );
            let start = elements_of(content.take(input)).len();
            &&& start + moved.len() <= elements_of(content).len()
            &&& elements_of(content).subrange(start as int, (start + moved.len()) as int) == moved
        }),
    decreases content.len(),
{
    let moved = moved_elements(content[input], byte_len(message_of(content.take(input))));
    let start = elements_of(content.take(input)).len() as int;
    if input == content.len() - 1 {
        assert(content.take(input) =~= content.drop_last());
        assert(elements_of(content).subrange(start, start + moved.len()) =~= moved);
    } else {
        lemma_elements_of_split(content.drop_last(), input);
        assert(content.drop_last().take(input) =~= content.take(input));
        let shorter = elements_of(content.drop_last());
        assert(elements_of(content).subrange(start, start + moved.len()) =~= shorter.subrange(
            start,
            start + moved.len(),
        ));
    }
}

/// A range of `text` covers the same when `text` stands between other texts and the range is moved
/// to where it stands.
pub proof fn lemma_slice_within(
    before: Seq<char>,
    text: Seq<char>,
    rest: Seq<char>,
    range: ByteRange,
)
    requires
        crate::user_input::text_in_range(text, range) is Some,
        range.end + byte_len(before) <= usize::MAX,
    ensures
        crate::user_input::text_in_range(
            before + text + rest,
            moved_range(range, byte_len(before)),
        ) == crate::user_input::text_in_range(text, range),
{
    broadcast use vstd::utf8::group_utf8_lib;

    let b = vstd::utf8::encode_utf8(before);
    let t = vstd::utf8::encode_utf8(text);
    let r = vstd::utf8::encode_utf8(rest);
    lemma_encode_utf8_concat(before + text, rest);
    lemma_encode_utf8_concat(before, text);
    let whole = vstd::utf8::encode_utf8(before + text + rest);
    assert(whole =~= b + t + r);
    let start = b.len() + range.start;
    let end = b.len() + range.end;
    lemma_boundary_within(b, t, r, range.start as int);
    lemma_boundary_within(b, t, r, range.end as int);
    assert(whole.subrange(start, end) =~= t.subrange(range.start as int, range.end as int));
}

proof fn lemma_boundary_within(b: Seq<u8>, t: Seq<u8>, r: Seq<u8>, index: int)
    requires
        vstd::utf8::valid_utf8(b),
        vstd::utf8::valid_utf8(t),
        vstd::utf8::valid_utf8(r),
        0 <= index <= t.len(),
        vstd::utf8::is_char_boundary(t, index),
    ensures
        vstd::utf8::valid_utf8(b + t + r),
        vstd::utf8::is_char_boundary(b + t + r, b.len() + index),
{
    let whole = b + t + r;
    let at = b.len() + index;
    vstd::utf8::valid_utf8_concat(b, t);
    vstd::utf8::valid_utf8_concat(b + t, r);
    if at == whole.len() {
        vstd::utf8::is_char_boundary_start_end_of_seq(whole);
    } else if index < t.len() {
        assert(whole[at] == t[index]);
        vstd::utf8::is_char_boundary_iff_not_is_continuation_byte(t, index);
        vstd::utf8::is_char_boundary_iff_not_is_continuation_byte(whole, at);
    } else {
        assert(whole[at] == r[0]);
        vstd::utf8::is_char_boundary_start_end_of_seq(r);
        vstd::utf8::is_char_boundary_iff_not_is_continuation_byte(r, 0);
        vstd::utf8::is_char_boundary_iff_not_is_continuation_byte(whole, at);
    }
}

/// Taking the default details off the end keeps the details before them, leaves no default one at
/// the end, and takes nothing more off the second time.
pub proof fn law_trimming_details(details: Seq<Option<ImageDetail>>)
    ensures
        trimmed_details(details).is_prefix_of(details),
        trimmed_details(details).len() > 0 ==> trimmed_details(details).last() is Some,
        trimmed_details(trimmed_details(details)) == trimmed_details(details),
        forall|i: int|
            trimmed_details(details).len() <= i < details.len() ==> (#[trigger] details[i]) is None,
    decreases details.len(),
{
    if details.len() > 0 && details.last() is None {
        let shorter = details.drop_last();
        law_trimming_details(shorter);
        let kept = trimmed_details(shorter);
        assert(kept =~= details.subrange(0, kept.len() as int)) by {
            assert(kept =~= shorter.subrange(0, kept.len() as int));
        }
        assert forall|i: int| kept.len() <= i < details.len() implies (#[trigger] details[i])
            is None by {
            if i < shorter.len() {
                assert(shorter[i] == details[i]);
            }
        }
    } else {
        assert(details =~= details.subrange(0, details.len() as int));
    }
}

/// Images and their details are listed in the same order, and so are local images and theirs: the
/// lists are of equal length before the default details are taken off.
pub proof fn law_details_align_with_images(content: Seq<UserInputView>)
    ensures
        image_urls_of(content).len() == image_details_of(content).len(),
        local_images_of(content).len() == local_image_details_of(content).len(),
    decreases content.len(),
{
    if content.len() > 0 {
        law_details_align_with_images(content.drop_last());
    }
}

impl AgentMessageItemView {
    /// The event that reports a part of the message.
    pub open spec fn legacy_event(self, content: AgentMessageContentView) -> EventMsgView {
        match content {
            AgentMessageContentView::Text { text } => EventMsgView::AgentMessage(
                AgentMessageEventView {
                    message: text,
                    phase: self.phase,
                    memory_citation: self.memory_citation,
                },
            ),
        }
    }

    /// The events that report the message, one for each part.
    pub open spec fn legacy_events(self) -> Seq<EventMsgView> {
        Seq::new(self.content.len(), |i: int| self.legacy_event(self.content[i]))
    }
}

impl AgentMessageItem {
    /// Makes a message with an identity of its own.
    pub fn new(content: &[AgentMessageContent]) -> (item: AgentMessageItem)
        ensures
            crate::ids::is_uuid_v4(item.id@),
            item.phase is None,
            item.memory_citation is None,
            item.deep_view().content == Seq::new(
                content@.len(),
                |i: int| content@[i].deep_view(),
            ),
    {
        AgentMessageItem {
            id: random_uuid(),
            content: duplicate_slice(content),
            phase: None,
            memory_citation: None,
        }
    }

    /// Makes the events that report the message, one for each part.
    pub fn as_legacy_events(&self) -> (events: Vec<EventMsg>)
        ensures
            events.deep_view() == self.deep_view().legacy_events(),
    {
        let mut events: Vec<EventMsg> = Vec::new();
        let mut index: usize = 0;
        while index < self.content.len()
            invariant
                index <= self.content@.len(),
                events@.len() == index,
                forall|i: int|
                    0 <= i < index ==> #[trigger] events@[i].deep_view()
                        == self.deep_view().legacy_events()[i],
            decreases self.content@.len() - index,
        {
            let event = match &self.content[index] {
                AgentMessageContent::Text { text } => AgentMessageEvent {
                    message: text.clone(),
                    phase: self.phase,
                    memory_citation: self.memory_citation.duplicate(),
                },
            };
            events.push(EventMsg::AgentMessage(event));
            index += 1;
        }
        assert(events.deep_view() =~= self.deep_view().legacy_events());
        events
    }
}

impl ReasoningItemView {
    /// The events that report the reasoning: one for each summary, and one for each part of the
    /// reasoning itself where that is to be shown.
    pub open spec fn legacy_events(self, show_raw: bool) -> Seq<EventMsgView> {
        Seq::new(
            self.summary_text.len(),
            |i: int|
                EventMsgView::AgentReasoning(
                    AgentReasoningEventView { text: self.summary_text[i] },
                ),
        ) + if show_raw {
            Seq::new(
                self.raw_content.len(),
                |i: int|
                    EventMsgView::AgentReasoningRawContent(
                        AgentReasoningRawContentEventView { text: self.raw_content[i] },
                    ),
            )
        } else {
            seq![]
        }
    }
}

impl ReasoningItem {
    /// Makes the events that report the reasoning.
    pub fn as_legacy_events(&self, show_raw_agent_reasoning: bool) -> (events: Vec<EventMsg>)
        ensures
            events.deep_view() == self.deep_view().legacy_events(show_raw_agent_reasoning),
    {
        let mut events: Vec<EventMsg> = Vec::new();
        let ghost expected = self.deep_view().legacy_events(show_raw_agent_reasoning);
        let mut index: usize = 0;
        while index < self.summary_text.len()
            invariant
                index <= self.summary_text@.len(),
                events@.len() == index,
                expected == self.deep_view().legacy_events(show_raw_agent_reasoning),
                forall|i: int| 0 <= i < index ==> #[trigger] events@[i].deep_view() == expected[i],
            decreases self.summary_text@.len() - index,
        {
            events.push(
                EventMsg::AgentReasoning(
                    AgentReasoningEvent { text: self.summary_text[index].clone() },
                ),
            );
            index += 1;
        }
        if show_raw_agent_reasoning {
            let mut raw: usize = 0;
            while raw < self.raw_content.len()
                invariant
                    raw <= self.raw_content@.len(),
                    show_raw_agent_reasoning,
                    events@.len() == self.summary_text@.len() + raw,
                    expected == self.deep_view().legacy_events(show_raw_agent_reasoning),
                    forall|i: int|
                        0 <= i < events@.len() ==> #[trigger] events@[i].deep_view() == expected[i],
                decreases self.raw_content@.len() - raw,
            {
                events.push(
                    EventMsg::AgentReasoningRawContent(
                        AgentReasoningRawContentEvent { text: self.raw_content[raw].clone() },
                    ),
                );
                raw += 1;
            }
        }
        assert(events.deep_view() =~= expected);
        events
    }
}

} // verus!
