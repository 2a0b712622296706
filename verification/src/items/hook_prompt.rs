//! Prompts that hooks put into a conversation, each written as an XML element.

use vstd::prelude::*;

use crate::ids::random_uuid;
use crate::models::{ContentItem, ContentItemView, ResponseItem};
use crate::text::{is_blank_text, trim};
use crate::xml::{read_root_attribute, read_xml_text, write_xml_element};

verus! {

/// The tag of the element that a fragment is written as.
pub const HOOK_PROMPT_TAG: &'static str = "hook_prompt";

/// The attribute that holds the run of the hook.
pub const HOOK_RUN_ID_ATTRIBUTE: &'static str = "hook_run_id";

/// What one run of a hook has to say.
#[derive(Clone, Debug, PartialEq, Eq)]
pub struct HookPromptFragment {
    pub text: String,
    pub hook_run_id: String,
}

/// What `HookPromptFragment` stands for.
#[verifier::ext_equal]
pub struct HookPromptFragmentView {
    pub text: Seq<char>,
    pub hook_run_id: Seq<char>,
}

impl DeepView for HookPromptFragment {
    type V = HookPromptFragmentView;

    open spec fn deep_view(&self) -> HookPromptFragmentView {
        HookPromptFragmentView {
            text: self.text@,
            hook_run_id: self.hook_run_id@,
        }
    }
}

/// The prompts of hooks in a message.
#[derive(Clone, Debug, PartialEq, Eq)]
pub struct HookPromptItem {
    pub id: String,
    pub fragments: Vec<HookPromptFragment>,
}

/// What `HookPromptItem` stands for.
#[verifier::ext_equal]
pub struct HookPromptItemView {
    pub id: Seq<char>,
    pub fragments: Seq<HookPromptFragmentView>,
}

impl DeepView for HookPromptItem {
    type V = HookPromptItemView;

    open spec fn deep_view(&self) -> HookPromptItemView {
        HookPromptItemView {
            id: self.id@,
            fragments: self.fragments.deep_view(),
        }
    }
}

impl HookPromptFragmentView {
    /// The element that the fragment is written as.
    pub open spec fn element(self) -> Seq<char> {
        crate::xml::xml_element(
            HOOK_PROMPT_TAG@,
            HOOK_RUN_ID_ATTRIBUTE@,
            self.hook_run_id,
            self.text,
        )
    }

    /// The fragment can be read back from the element that it is written as: it names a run, and
    /// its text is not blank.
    pub open spec fn survives_writing(self) -> bool {
        !crate::text::is_blank(self.hook_run_id) && !crate::xml::is_xml_blank(self.text)
    }
}

/// The fragment that an attribute and a text stand for: there is none without both, or without a
/// run.
pub open spec fn fragment_of(hook_run_id: Option<Seq<char>>, text: Option<Seq<char>>) -> Option<
    HookPromptFragmentView,
> {
    match (hook_run_id, text) {
        (Some(id), Some(content)) => if crate::text::is_blank(id) {
            None
        } else {
            Some(HookPromptFragmentView { text: content, hook_run_id: id })
        },
        _ => None,
    }
}

/// The fragment that is written as `xml`, with white space around it.
pub open spec fn parsed_fragment(xml: Seq<char>) -> Option<HookPromptFragmentView> {
    let document = crate::text::trimmed(xml);
    fragment_of(
        crate::xml::root_attribute(document, HOOK_RUN_ID_ATTRIBUTE@),
        crate::xml::xml_text_content(document),
    )
}

/// Makes the fragment that an attribute and a text stand for.
pub fn hook_prompt_fragment_from_parts(hook_run_id: Option<String>, text: Option<String>) -> (
fragment: Option<HookPromptFragment>)
    ensures
        fragment.deep_view() == fragment_of(hook_run_id.deep_view(), text.deep_view()),
{
    match (hook_run_id, text) {
        (Some(hook_run_id), Some(text)) => if is_blank_text(hook_run_id.as_str()) {
            None
        } else {
            Some(HookPromptFragment { text, hook_run_id })
        },
        _ => None,
    }
}

proof fn lemma_element_is_trimmed(fragment: HookPromptFragmentView)
    ensures
        crate::text::trimmed(fragment.element()) == fragment.element(),
{
    reveal_strlit("<");
    reveal_strlit(">");
    reveal_strlit("/>");
    let xml = fragment.element();
    assert(xml[0] == '<');
    assert(xml.last() == '>');
    crate::text::lemma_trimmed_unchanged(xml);
}

proof fn lemma_plain_names()
    ensures
        crate::xml::is_plain_name(HOOK_PROMPT_TAG@),
        crate::xml::is_plain_name(HOOK_RUN_ID_ATTRIBUTE@),
{
    reveal_strlit("hook_prompt");
    reveal_strlit("hook_run_id");
    reveal_strlit("xmlns");
}

/// Reads a fragment from the element that it is written as.
///
/// A fragment that names a run and whose text is not blank is read back from what it was written
/// as.
pub fn parse_hook_prompt_fragment(text: &str) -> (fragment: Option<HookPromptFragment>)
    ensures
        fragment.deep_view() == parsed_fragment(text@),
        forall|written: HookPromptFragmentView|
            text@ == #[trigger] written.element() && written.survives_writing()
                ==> fragment.deep_view() == Some(written),
{
    let document = trim(text);
    let hook_run_id = read_root_attribute(document, HOOK_RUN_ID_ATTRIBUTE);
    let content = read_xml_text(document);
    proof {
        lemma_plain_names();
        assert forall|written: HookPromptFragmentView|
            text@ == #[trigger] written.element() && written.survives_writing() implies fragment_of(
            hook_run_id.deep_view(),
            content.deep_view(),
        ) == Some(written) by {
            lemma_element_is_trimmed(written);
            assert(document@ == crate::xml::xml_element(
                HOOK_PROMPT_TAG@,
                HOOK_RUN_ID_ATTRIBUTE@,
                written.hook_run_id,
                written.text,
            ));
        }
    }
    hook_prompt_fragment_from_parts(hook_run_id, content)
}

/// Writes a fragment as an element, if it names a run.
fn serialize_hook_prompt_fragment(text: &str, hook_run_id: &str) -> (xml: Option<String>)
    ensures
        xml.deep_view() == if crate::text::is_blank(hook_run_id@) {
            None
        } else {
            Some(
                (HookPromptFragmentView { text: text@, hook_run_id: hook_run_id@ }).element(),
            )
        },
{
    if is_blank_text(hook_run_id) {
        return None;
    }
    proof {
        lemma_plain_names();
    }
    write_xml_element(HOOK_PROMPT_TAG, HOOK_RUN_ID_ATTRIBUTE, hook_run_id, text)
}

/// The parts of the message that the fragments are written as: one for each fragment that names a
/// run.
pub open spec fn written_fragments(fragments: Seq<HookPromptFragmentView>) -> Seq<ContentItemView>
    decreases fragments.len(),
{
    if fragments.len() == 0 {
        seq![]
    } else if crate::text::is_blank(fragments.last().hook_run_id) {
        written_fragments(fragments.drop_last())
    } else {
        written_fragments(fragments.drop_last()).push(
            ContentItemView::InputText { text: fragments.last().element() },
        )
    }
}

/// Writes the fragments as a message of the user, if any of them names a run.
pub fn build_hook_prompt_message(fragments: &[HookPromptFragment]) -> (message: Option<
    ResponseItem,
>)
    ensures
        ({
            let content = written_fragments(
                Seq::new(fragments@.len(), |i: int| fragments@[i].deep_view()),
            );
            match message {
                Some(ResponseItem::Message {
                    id,
                    role,
                    content: parts,
                    phase,
                    internal_chat_message_metadata_passthrough,
                }) => {
                    &&& content.len() > 0
                    &&& parts.deep_view() == content
                    &&& id matches Some(text) && crate::ids::is_uuid_v4(text@)
                    &&& role@ == "user"@
                    &&& phase is None
                    &&& internal_chat_message_metadata_passthrough is None
                },
                Some(ResponseItem::Other) => false,
                None => content.len() == 0,
            }
        }),
{
    let ghost views = Seq::new(fragments@.len(), |i: int| fragments@[i].deep_view());
    let mut content: Vec<ContentItem> = Vec::new();
    let mut index: usize = 0;
    assert(content.deep_view() =~= written_fragments(views.take(0)));
    while index < fragments.len()
        invariant
            index <= fragments@.len(),
            views == Seq::new(fragments@.len(), |i: int| fragments@[i].deep_view()),
            content.deep_view() == written_fragments(views.take(index as int)),
        decreases fragments@.len() - index,
    {
        let ghost before = content.deep_view();
        let fragment = &fragments[index];
        proof {
            assert(views.take(index + 1).drop_last() =~= views.take(index as int));
            assert(views.take(index + 1).last() == fragment.deep_view());
        }
        match serialize_hook_prompt_fragment(
            fragment.text.as_str(),
            fragment.hook_run_id.as_str(),
        ) {
            Some(text) => {
                let ghost added = ContentItemView::InputText { text: text@ };
                content.push(ContentItem::InputText { text });
                assert(content.deep_view() =~= before.push(added));
            },
            None => {},
        }
        index += 1;
    }
    assert(views.take(views.len() as int) =~= views);
    if content.len() == 0 {
        return None;
    }
    Some(
        ResponseItem::Message {
            id: Some(random_uuid()),
            role: "user".to_owned(),
            content,
            phase: None,
            internal_chat_message_metadata_passthrough: None,
        },
    )
}

/// The fragments that the parts of a message are written as: `None` where any part is not one.
pub open spec fn parsed_fragments(content: Seq<ContentItemView>) -> Option<
    Seq<HookPromptFragmentView>,
>
    decreases content.len(),
{
    if content.len() == 0 {
        Some(seq![])
    } else {
        match (parsed_fragments(content.drop_last()), content.last()) {
            (Some(fragments), ContentItemView::InputText { text }) => match parsed_fragment(text) {
                Some(fragment) => Some(fragments.push(fragment)),
                None => None,
            },
            _ => None,
        }
    }
}

impl HookPromptItem {
    /// Makes an item of the fragments, with the given identity or one of its own.
    pub fn from_fragments(id: Option<&String>, fragments: Vec<HookPromptFragment>) -> (item:
        HookPromptItem)
        ensures
            item.deep_view().fragments == fragments.deep_view(),
            match id {
                Some(given) => item.id@ == given@,
                None => crate::ids::is_uuid_v4(item.id@),
            },
    {
        let id = match id {
            Some(given) => given.clone(),
            None => random_uuid(),
        };
        HookPromptItem { id, fragments }
    }
}

impl HookPromptFragment {
    /// Makes the fragment of one run of a hook.
    pub fn from_single_hook(text: &str, hook_run_id: &str) -> (fragment: HookPromptFragment)
        ensures
            fragment.deep_view() == (HookPromptFragmentView {
                text: text@,
                hook_run_id: hook_run_id@,
            }),
    {
        HookPromptFragment { text: text.to_owned(), hook_run_id: hook_run_id.to_owned() }
    }
}

/// The fragments all survive being written.
pub open spec fn all_survive(fragments: Seq<HookPromptFragmentView>) -> bool {
    forall|i: int| 0 <= i < fragments.len() ==> (#[trigger] fragments[i]).survives_writing()
}

proof fn lemma_written_fragments(fragments: Seq<HookPromptFragmentView>)
    requires
        all_survive(fragments),
    ensures
        written_fragments(fragments) == Seq::new(
            fragments.len(),
            |i: int| ContentItemView::InputText { text: fragments[i].element() },
        ),
    decreases fragments.len(),
{
    let expected = Seq::new(
        fragments.len(),
        |i: int| ContentItemView::InputText { text: fragments[i].element() },
    );
    if fragments.len() > 0 {
        let shorter = fragments.drop_last();
        assert(fragments[fragments.len() - 1].survives_writing());
        assert forall|i: int| 0 <= i < shorter.len() implies (
        #[trigger] shorter[i]).survives_writing() by {
            assert(shorter[i] == fragments[i]);
        }
        lemma_written_fragments(shorter);
        assert(written_fragments(fragments) =~= expected);
    } else {
        assert(written_fragments(fragments) =~= expected);
    }
}

/// Reads the prompts of hooks from the parts of a message, if each part is one and there is any.
///
/// Fragments that each name a run and have a text that is not blank are read back from the message
/// that they were written as.
pub fn parse_hook_prompt_message(id: Option<&String>, content: &[ContentItem]) -> (item: Option<
    HookPromptItem,
>)
    ensures
        ({
            let fragments = parsed_fragments(
                Seq::new(content@.len(), |i: int| content@[i].deep_view()),
            );
            match item {
                Some(found) => {
                    &&& fragments == Some(found.deep_view().fragments)
                    &&& found.deep_view().fragments.len() > 0
                    &&& match id {
                        Some(given) => found.id@ == given@,
                        None => crate::ids::is_uuid_v4(found.id@),
                    }
                },
                None => fragments is None || fragments->0.len() == 0,
            }
        }),
        forall|written: Seq<HookPromptFragmentView>|
            Seq::new(content@.len(), |i: int| content@[i].deep_view())
                == #[trigger] written_fragments(written) && all_survive(written) && written.len()
                > 0 ==> (item matches Some(found) && found.deep_view().fragments == written),
{
    let ghost views = Seq::new(content@.len(), |i: int| content@[i].deep_view());
    let mut fragments: Vec<HookPromptFragment> = Vec::new();
    let mut index: usize = 0;
    assert(Some(fragments.deep_view()) == parsed_fragments(views.take(0))) by {
        assert(fragments.deep_view() =~= seq![]);
    }
    while index < content.len()
        invariant
            index <= content@.len(),
            views == Seq::new(content@.len(), |i: int| content@[i].deep_view()),
            parsed_fragments(views.take(index as int)) == Some(fragments.deep_view()),
            fragments@.len() == index,
            forall|written: Seq<HookPromptFragmentView>, i: int|
                views == #[trigger] written_fragments(written) && all_survive(written) && 0 <= i
                    < index ==> fragments.deep_view()[i] == #[trigger] written[i],
        decreases content@.len() - index,
    {
        let ghost before = fragments.deep_view();
        proof {
            assert(views.take(index + 1).drop_last() =~= views.take(index as int));
            assert(views.take(index + 1).last() == content@[index as int].deep_view());
        }
        let fragment = match &content[index] {
            ContentItem::InputText { text } => {
                let fragment = parse_hook_prompt_fragment(text.as_str());
                proof {
                    assert forall|written: Seq<HookPromptFragmentView>|
                        views == #[trigger] written_fragments(written) && all_survive(
                            written,
                        ) implies fragment.deep_view() == Some(written[index as int]) by {
                        lemma_written_fragments(written);
                        assert(views[index as int] == content@[index as int].deep_view());
                        assert(written[index as int].survives_writing());
                        assert(text@ == written[index as int].element());
                    }
                }
                fragment
            },
            _ => {
                proof {
                    assert forall|written: Seq<HookPromptFragmentView>|
                        views == #[trigger] written_fragments(written) && all_survive(
                            written,
                        ) implies false by {
                        lemma_written_fragments(written);
                        assert(views[index as int] == content@[index as int].deep_view());
                    }
                }
                None
            },
        };
        match fragment {
            Some(found) => {
                let ghost added = found.deep_view();
                fragments.push(found);
                assert(fragments.deep_view() =~= before.push(added));
            },
            None => {
                proof {
                    lemma_parse_fails(views, index + 1);
                }
                return None;
            },
        }
        index += 1;
    }
    proof {
        assert(views.take(views.len() as int) =~= views);
        assert forall|written: Seq<HookPromptFragmentView>|
            views == #[trigger] written_fragments(written) && all_survive(
                written,
            ) implies fragments.deep_view() == written by {
            lemma_written_fragments(written);
            assert forall|i: int| 0 <= i < written.len() implies fragments.deep_view()[i]
                == written[i] by {
                assert(written[i] == written[i]);
            }
            assert(fragments.deep_view() =~= written);
        }
    }
    if fragments.len() == 0 {
        return None;
    }
    Some(HookPromptItem::from_fragments(id, fragments))
}

proof fn lemma_parse_fails(content: Seq<ContentItemView>, count: int)
    requires
        0 <= count <= content.len(),
        parsed_fragments(content.take(count)) is None,
    ensures
        parsed_fragments(content) is None,
    decreases content.len(),
{
    if count == content.len() {
        assert(content.take(count) =~= content);
    } else {
        assert(content.drop_last().take(count) =~= content.take(count));
        lemma_parse_fails(content.drop_last(), count);
    }
}

/// A fragment is made of an attribute and a text exactly where there are both and the attribute
/// names a run; then it holds both of them.
pub proof fn law_fragments_name_a_run(hook_run_id: Option<Seq<char>>, text: Option<Seq<char>>)
    ensures
        fragment_of(hook_run_id, text) is Some <==> hook_run_id is Some && text is Some
            && !crate::text::is_blank(hook_run_id->0),
        fragment_of(hook_run_id, text) matches Some(fragment) ==> {
            &&& hook_run_id == Some(fragment.hook_run_id)
            &&& text == Some(fragment.text)
        },
{
}

/// Fragments are written one by one and in order: one that names a run adds its element, and one
/// that does not adds nothing.
pub proof fn law_fragments_are_written_one_by_one(
    fragments: Seq<HookPromptFragmentView>,
    fragment: HookPromptFragmentView,
)
    ensures
        written_fragments(seq![]).len() == 0,
        !crate::text::is_blank(fragment.hook_run_id) ==> written_fragments(fragments.push(fragment))
            == written_fragments(fragments).push(
            ContentItemView::InputText {
                text: crate::xml::xml_element(
                    "hook_prompt"@,
                    "hook_run_id"@,
                    fragment.hook_run_id,
                    fragment.text,
                ),
            },
        ),
        crate::text::is_blank(fragment.hook_run_id) ==> written_fragments(fragments.push(fragment))
            == written_fragments(fragments),
{
    assert(fragments.push(fragment).drop_last() =~= fragments);
    assert(fragments.push(fragment).last() == fragment);
}

/// The parts of a message are read all or none: there are fragments exactly where each part is a
/// text that one is written as, and then there is one for each part, in order.
pub proof fn law_messages_are_read_whole(content: Seq<ContentItemView>)
    ensures
        parsed_fragments(content) is Some <==> forall|i: int|
            0 <= i < content.len() ==> (#[trigger] content[i] matches ContentItemView::InputText {
                text,
            } && parsed_fragment(text) is Some),
        parsed_fragments(content) matches Some(fragments) ==> {
            &&& fragments.len() == content.len()
            &&& forall|i: int|
                0 <= i < content.len() ==> (#[trigger] content[i] matches
                    ContentItemView::InputText { text } && parsed_fragment(text) == Some(
                    fragments[i],
                ))
        },
    decreases content.len(),
{
    if content.len() > 0 {
        let shorter = content.drop_last();
        law_messages_are_read_whole(shorter);
        assert(content[content.len() - 1] == content.last());
        assert(forall|i: int| 0 <= i < shorter.len() ==> shorter[i] == #[trigger] content[i]);
        if parsed_fragments(content) is None && parsed_fragments(shorter) is None {
            let i = choose|i: int|
                0 <= i < shorter.len() && !(#[trigger] shorter[i] matches
                    ContentItemView::InputText { text } && parsed_fragment(text) is Some);
            assert(shorter[i] == content[i]);
        }
        if parsed_fragments(content) is Some {
            let fragments = parsed_fragments(content)->0;
            assert forall|i: int| 0 <= i < content.len() implies (#[trigger] content[i] matches
                ContentItemView::InputText { text } && parsed_fragment(text) == Some(
                fragments[i],
            )) by {
                if i < shorter.len() {
                    assert(shorter[i] == content[i]);
                }
            }
        }
    }
}

/// White space around a fragment makes no difference to what is read.
pub proof fn law_white_space_around_a_fragment(
    before: Seq<char>,
    xml: Seq<char>,
    after: Seq<char>,
)
    requires
        crate::text::is_blank(before),
        crate::text::is_blank(after),
        xml.len() > 0 ==> !crate::text::is_white_space(xml[0]) && !crate::text::is_white_space(
            xml.last(),
        ),
    ensures
        parsed_fragment(before + xml + after) == parsed_fragment(xml),
        parsed_fragment(before + xml + after) == fragment_of(
            crate::xml::root_attribute(xml, "hook_run_id"@),
            crate::xml::xml_text_content(xml),
        ),
{
    crate::text::law_trimming_takes_off_white_space(before, xml, after);
    crate::text::law_trimming_takes_off_white_space(seq![], xml, seq![]);
    assert(Seq::<char>::empty() + xml + Seq::<char>::empty() =~= xml);
}

/// A fragment survives being written wherever its run has a name, of whatever characters, and its
/// text has anything in it but the white space that XML knows.
pub proof fn law_fragments_that_survive(fragment: HookPromptFragmentView, run: int, at: int)
    requires
        0 <= run < fragment.hook_run_id.len(),
        !crate::text::is_white_space(fragment.hook_run_id[run]),
        0 <= at < fragment.text.len(),
        fragment.text[at] != ' ' && fragment.text[at] != '\t' && fragment.text[at] != '\n'
            && fragment.text[at] != '\r',
    ensures
        fragment.survives_writing(),
        all_survive(seq![fragment]),
{
    assert(!crate::xml::is_xml_blank(fragment.text));
    assert(!crate::text::is_blank(fragment.hook_run_id));
}

} // verus!
