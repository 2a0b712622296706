//! What the events of messages and of reasoning say, part by part.

use vstd::prelude::*;

use crate::items::message::{
    AgentMessageContentView, AgentMessageItemView, ReasoningItemView, UserMessageItemView,
};
use crate::protocol::{AgentReasoningEventView, AgentReasoningRawContentEventView, EventMsgView};
use crate::user_input::{ByteRange, TextElementView, UserInputView};

verus! {

/// Reasoning is reported by one event for each summary, in order and with its text, and, where
/// the reasoning itself is shown, by one further event for each part of it, in order and with its
/// text. There are no other events.
pub proof fn law_reasoning_is_reported_part_by_part(item: ReasoningItemView, show_raw: bool)
    ensures
        item.legacy_events(show_raw).len() == item.summary_text.len() + if show_raw {
            item.raw_content.len()
        } else {
            0
        },
        forall|i: int|
            0 <= i < item.summary_text.len() ==> (#[trigger] item.legacy_events(
                show_raw,
            )[i] matches EventMsgView::AgentReasoning(event) && event.text
                == item.summary_text[i]),
        show_raw ==> forall|j: int|
            0 <= j < item.raw_content.len() ==> (#[trigger] item.legacy_events(
                show_raw,
            )[item.summary_text.len() + j] matches EventMsgView::AgentReasoningRawContent(event)
                && event.text == item.raw_content[j]),
{
}

/// A further summary is reported by one further event, behind those of the summaries before it;
/// a further part of the reasoning by one further event at the end, where it is shown, and by
/// none where it is not.
pub proof fn law_further_reasoning_is_reported_last(
    item: ReasoningItemView,
    text: Seq<char>,
)
    ensures
        (ReasoningItemView { summary_text: item.summary_text.push(text), ..item }).legacy_events(
            false,
        ) == item.legacy_events(false).push(
            EventMsgView::AgentReasoning(AgentReasoningEventView { text }),
        ),
        (ReasoningItemView { raw_content: item.raw_content.push(text), ..item }).legacy_events(true)
            == item.legacy_events(true).push(
            EventMsgView::AgentReasoningRawContent(AgentReasoningRawContentEventView { text }),
        ),
        (ReasoningItemView { raw_content: item.raw_content.push(text), ..item }).legacy_events(
            false,
        ) == item.legacy_events(false),
        item.legacy_events(false).is_prefix_of(item.legacy_events(true)),
{
    let summed = ReasoningItemView { summary_text: item.summary_text.push(text), ..item };
    let raw = ReasoningItemView { raw_content: item.raw_content.push(text), ..item };
    assert(summed.legacy_events(false) =~= item.legacy_events(false).push(
        EventMsgView::AgentReasoning(AgentReasoningEventView { text }),
    ));
    assert(raw.legacy_events(true) =~= item.legacy_events(true).push(
        EventMsgView::AgentReasoningRawContent(AgentReasoningRawContentEventView { text }),
    ));
    assert(raw.legacy_events(false) =~= item.legacy_events(false));
    assert(item.legacy_events(false) =~= item.legacy_events(true).subrange(
        0,
        item.legacy_events(false).len() as int,
    ));
}

/// A message of the agent is reported by one event for each of its parts, in order, each with the
/// part's text and with the phase and the citation of the message.
pub proof fn law_agent_message_is_reported_part_by_part(item: AgentMessageItemView)
    ensures
        item.legacy_events().len() == item.content.len(),
        forall|i: int|
            0 <= i < item.content.len() ==> (#[trigger] item.legacy_events()[i] matches
                EventMsgView::AgentMessage(event) && {
                &&& item.content[i] matches AgentMessageContentView::Text { text }
                &&& event.message == text
                &&& event.phase == item.phase
                &&& event.memory_citation == item.memory_citation
            }),
{
}

/// What an input adds to the message: a text adds itself, and nothing else adds anything.
pub proof fn law_input_adds_its_text(content: Seq<UserInputView>, input: UserInputView)
    ensures
        input matches UserInputView::Text { text, text_elements }
            ==> crate::items::message::message_of(content.push(input))
            == crate::items::message::message_of(content) + text,
        !(input is Text) ==> crate::items::message::message_of(content.push(input))
            == crate::items::message::message_of(content),
        crate::items::message::message_of(seq![]).len() == 0,
{
    assert(content.push(input).drop_last() =~= content);
    assert(content.push(input).last() == input);
    if !(input is Text) {
        assert(crate::items::message::message_of(content) + seq![]
            =~= crate::items::message::message_of(content));
    }
}

/// An image adds its address and its detail, a local image its path and its detail, and no other
/// input adds to either list.
pub proof fn law_input_adds_its_image(content: Seq<UserInputView>, input: UserInputView)
    ensures
        ({
            let more = content.push(input);
            let urls = crate::items::message::image_urls_of(content);
            let details = crate::items::message::image_details_of(content);
            let paths = crate::items::message::local_images_of(content);
            let path_details = crate::items::message::local_image_details_of(content);
            &&& input matches UserInputView::Image { image_url, detail } ==> {
                &&& crate::items::message::image_urls_of(more) == urls.push(image_url)
                &&& crate::items::message::image_details_of(more) == details.push(detail)
            }
            &&& !(input is Image) ==> {
                &&& crate::items::message::image_urls_of(more) == urls
                &&& crate::items::message::image_details_of(more) == details
            }
            &&& input matches UserInputView::LocalImage { path, detail } ==> {
                &&& crate::items::message::local_images_of(more) == paths.push(path)
                &&& crate::items::message::local_image_details_of(more) == path_details.push(detail)
            }
            &&& !(input is LocalImage) ==> {
                &&& crate::items::message::local_images_of(more) == paths
                &&& crate::items::message::local_image_details_of(more) == path_details
            }
        }),
        crate::items::message::image_urls_of(seq![]).len() == 0,
        crate::items::message::image_details_of(seq![]).len() == 0,
        crate::items::message::local_images_of(seq![]).len() == 0,
        crate::items::message::local_image_details_of(seq![]).len() == 0,
{
    let more = content.push(input);
    assert(more.drop_last() =~= content);
    assert(more.last() == input);
    assert(crate::items::message::image_urls_of(more) =~= crate::items::message::image_urls_of(
        content,
    ) + match input {
        UserInputView::Image { image_url, detail } => seq![image_url],
        _ => seq![],
    });
    assert(crate::items::message::image_details_of(more)
        =~= crate::items::message::image_details_of(content) + match input {
        UserInputView::Image { image_url, detail } => seq![detail],
        _ => seq![],
    });
    assert(crate::items::message::local_images_of(more) =~= crate::items::message::local_images_of(
        content,
    ) + match input {
        UserInputView::LocalImage { path, detail } => seq![path],
        _ => seq![],
    });
    assert(crate::items::message::local_image_details_of(more)
        =~= crate::items::message::local_image_details_of(content) + match input {
        UserInputView::LocalImage { path, detail } => seq![detail],
        _ => seq![],
    });
}

/// A text adds each of its elements, in order and behind those before them: its range is moved by
/// the bytes of the message before the text, at either end, and what is shown for it is its own
/// placeholder or else the text in its range. No other input adds an element.
pub proof fn law_input_adds_its_elements(content: Seq<UserInputView>, input: UserInputView)
    requires
        crate::items::message::ranges_fit(content.push(input)),
    ensures
        ({
            let before = crate::items::message::elements_of(content);
            let after = crate::items::message::elements_of(content.push(input));
            let offset = vstd::utf8::encode_utf8(
                crate::items::message::message_of(content),
            ).len();
            &&& before.is_prefix_of(after)
            &&& !(input is Text) ==> after == before
            &&& input matches UserInputView::Text { text, text_elements } ==> {
                &&& after.len() == before.len() + text_elements.len()
                &&& forall|i: int|
                    0 <= i < text_elements.len() ==> {
                        let added = #[trigger] after[before.len() + i];
                        &&& added.byte_range.start == text_elements[i].byte_range.start + offset
                        &&& added.byte_range.end == text_elements[i].byte_range.end + offset
                        &&& text_elements[i].placeholder is Some ==> added.placeholder
                            == text_elements[i].placeholder
                        &&& text_elements[i].placeholder is None ==> added.placeholder
                            == crate::user_input::text_in_range(text, text_elements[i].byte_range)
                    }
            }
        }),
        crate::items::message::elements_of(seq![]).len() == 0,
{
    let more = content.push(input);
    let before = crate::items::message::elements_of(content);
    let after = crate::items::message::elements_of(more);
    assert(more.drop_last() =~= content);
    assert(more.last() == input);
    let offset = crate::items::message::byte_len(crate::items::message::message_of(content));
    let added = crate::items::message::moved_elements(input, offset);
    assert(after == before + added);
    assert(before =~= after.subrange(0, before.len() as int));
    if !(input is Text) {
        assert(after =~= before);
    }
    if let UserInputView::Text { text, text_elements } = input {
        assert forall|i: int| 0 <= i < text_elements.len() implies {
            let element = #[trigger] after[before.len() + i];
            &&& element.byte_range.start == text_elements[i].byte_range.start + offset
            &&& element.byte_range.end == text_elements[i].byte_range.end + offset
            &&& text_elements[i].placeholder is Some ==> element.placeholder
                == text_elements[i].placeholder
            &&& text_elements[i].placeholder is None ==> element.placeholder
                == crate::user_input::text_in_range(text, text_elements[i].byte_range)
        } by {
            assert(after[before.len() + i] == added[i]);
            assert(text_elements[i].byte_range.start + offset <= usize::MAX);
        }
    }
}

/// Elements that end within their texts always find room in the message, as long as the message
/// itself has a length.
pub proof fn law_elements_within_their_texts_fit(content: Seq<UserInputView>)
    requires
        vstd::utf8::encode_utf8(crate::items::message::message_of(content)).len() <= usize::MAX,
        forall|i: int|
            0 <= i < content.len() ==> (#[trigger] content[i] matches UserInputView::Text {
                text,
                text_elements,
            } ==> forall|j: int|
                0 <= j < text_elements.len() ==> (#[trigger] text_elements[j]).byte_range.start
                    <= text_elements[j].byte_range.end <= vstd::utf8::encode_utf8(text).len()),
    ensures
        crate::items::message::ranges_fit(content),
    decreases content.len(),
{
    if content.len() > 0 {
        let shorter = content.drop_last();
        let last = content.last();
        let head = crate::items::message::message_of(shorter);
        let tail = crate::items::message::input_text(last);
        crate::items::message::lemma_encode_utf8_concat(head, tail);
        assert(crate::items::message::message_of(content) == head + tail);
        assert forall|i: int| 0 <= i < shorter.len() implies (#[trigger] shorter[i] matches
            UserInputView::Text { text, text_elements } ==> forall|j: int|
            0 <= j < text_elements.len() ==> (#[trigger] text_elements[j]).byte_range.start
                <= text_elements[j].byte_range.end <= vstd::utf8::encode_utf8(text).len()) by {
            assert(shorter[i] == content[i]);
        }
        law_elements_within_their_texts_fit(shorter);
        assert(last == content[content.len() - 1]);
    }
}

/// The event of a message of the user holds the client's identity of the message, its text, its
/// images and local images, their details without the trailing defaults, and its elements.
pub proof fn law_user_message_is_reported_whole(item: UserMessageItemView)
    ensures
        item.legacy_event() matches EventMsgView::UserMessage(event) && {
            &&& event.client_id == item.client_id
            &&& event.message == crate::items::message::message_of(item.content)
            &&& event.images == Some(crate::items::message::image_urls_of(item.content))
            &&& event.local_images == crate::items::message::local_images_of(item.content)
            &&& event.text_elements == crate::items::message::elements_of(item.content)
            &&& event.image_details.is_prefix_of(
                crate::items::message::image_details_of(item.content),
            )
            &&& event.image_details.len() > 0 ==> event.image_details.last() is Some
            &&& forall|i: int|
                event.image_details.len() <= i < crate::items::message::image_details_of(
                    item.content,
                ).len() ==> (#[trigger] crate::items::message::image_details_of(
                    item.content,
                )[i]) is None
            &&& event.local_image_details.is_prefix_of(
                crate::items::message::local_image_details_of(item.content),
            )
            &&& event.local_image_details.len() > 0 ==> event.local_image_details.last() is Some
            &&& forall|i: int|
                event.local_image_details.len() <= i
                    < crate::items::message::local_image_details_of(item.content).len() ==> (
                #[trigger] crate::items::message::local_image_details_of(item.content)[i]) is None
        },
{
    crate::items::message::law_trimming_details(
        crate::items::message::image_details_of(item.content),
    );
    crate::items::message::law_trimming_details(
        crate::items::message::local_image_details_of(item.content),
    );
}

/// The text in the range that a piece of a text covers is that piece.
pub proof fn law_text_in_range_is_the_piece(
    before: Seq<char>,
    piece: Seq<char>,
    after: Seq<char>,
    range: ByteRange,
)
    requires
        range.start == vstd::utf8::encode_utf8(before).len(),
        range.end == range.start + vstd::utf8::encode_utf8(piece).len(),
    ensures
        crate::user_input::text_in_range(before + piece + after, range) == Some(piece),
{
    broadcast use vstd::utf8::group_utf8_lib;

    let bytes = vstd::utf8::encode_utf8(piece);
    let own = ByteRange { start: 0, end: bytes.len() as usize };
    assert(bytes.subrange(0, bytes.len() as int) =~= bytes);
    vstd::utf8::is_char_boundary_start_end_of_seq(bytes);
    assert(crate::user_input::text_in_range(piece, own) == Some(piece));
    crate::items::message::lemma_slice_within(before, piece, after, own);
    assert(crate::items::message::moved_range(
        own,
        crate::items::message::byte_len(before),
    ) == range);
}

/// A range that ends before it starts, or behind the end of the text, has no text in it.
pub proof fn law_no_text_outside(text: Seq<char>, range: ByteRange)
    ensures
        range.end < range.start ==> crate::user_input::text_in_range(text, range) is None,
        vstd::utf8::encode_utf8(text).len() < range.end ==> crate::user_input::text_in_range(
            text,
            range,
        ) is None,
        crate::user_input::text_in_range(text, range) is Some ==> {
            let bytes = vstd::utf8::encode_utf8(text);
            &&& vstd::utf8::is_char_boundary(bytes, range.start as int)
            &&& vstd::utf8::is_char_boundary(bytes, range.end as int)
        },
{
}

/// What is shown for an element is its placeholder, where it has one, whatever the text.
pub proof fn law_placeholder_is_shown_first(element: TextElementView, text: Seq<char>)
    ensures
        element.placeholder is Some ==> element.shown(text) == element.placeholder,
        element.placeholder is None ==> element.shown(text) == crate::user_input::text_in_range(
            text,
            element.byte_range,
        ),
{
}

/// A further input fits exactly where those before it do, the message does not become too long,
/// and no end of the input's elements is moved too far.
pub proof fn law_inputs_fit_one_by_one(content: Seq<UserInputView>, input: UserInputView)
    ensures
        crate::items::message::ranges_fit(seq![]),
        ({
            let offset = vstd::utf8::encode_utf8(
                crate::items::message::message_of(content),
            ).len();
            crate::items::message::ranges_fit(content.push(input)) <==> {
                &&& crate::items::message::ranges_fit(content)
                &&& vstd::utf8::encode_utf8(
                    crate::items::message::message_of(content.push(input)),
                ).len() <= usize::MAX
                &&& input matches UserInputView::Text { text, text_elements } ==> forall|i: int|
                    0 <= i < text_elements.len() ==> (#[trigger] text_elements[i]).byte_range.start
                        + offset <= usize::MAX && text_elements[i].byte_range.end + offset
                        <= usize::MAX
            }
        }),
{
    let more = content.push(input);
    assert(more.drop_last() =~= content);
    assert(more.last() == input);
    crate::items::message::lemma_encode_utf8_concat(
        crate::items::message::message_of(content),
        crate::items::message::input_text(input),
    );
    assert(crate::items::message::message_of(more) == crate::items::message::message_of(content)
        + crate::items::message::input_text(input));
}

} // verus!
