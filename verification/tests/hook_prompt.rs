//! Prompts of hooks, written as messages and read back.

use agent_turns::items::{
    build_hook_prompt_message, parse_hook_prompt_fragment, parse_hook_prompt_message,
    HookPromptFragment, HookPromptItem,
};
use agent_turns::items::hook_prompt::hook_prompt_fragment_from_parts;
use agent_turns::xml::{find_first_tag, find_value_named, XmlAttribute, XmlEvent};
use agent_turns::models::{ContentItem, ResponseItem};

fn content_of(message: ResponseItem) -> (Option<String>, String, Vec<ContentItem>) {
    match message {
        ResponseItem::Message {
            id,
            role,
            content,
            phase,
            internal_chat_message_metadata_passthrough,
        } => {
            assert_eq!(phase, None);
            assert_eq!(internal_chat_message_metadata_passthrough, None);
            (id, role, content)
        }
        ResponseItem::Other => panic!("expected hook prompt message"),
    }
}

fn text_of(item: &ContentItem) -> &str {
    match item {
        ContentItem::InputText { text } => text,
        _ => panic!("expected text"),
    }
}

fn written(text: &str, hook_run_id: &str) -> String {
    let message =
        build_hook_prompt_message(&[HookPromptFragment::from_single_hook(text, hook_run_id)])
            .expect("hook prompt");
    let (_, _, content) = content_of(message);
    assert_eq!(content.len(), 1);
    text_of(&content[0]).to_string()
}

#[test]
fn hook_prompt_roundtrips_multiple_fragments() {
    let original = vec![
        HookPromptFragment::from_single_hook("Retry with care & joy.", "hook-run-1"),
        HookPromptFragment::from_single_hook("Then summarize cleanly.", "hook-run-2"),
    ];
    let message = build_hook_prompt_message(&original).expect("hook prompt");

    let ResponseItem::Message { content, .. } = message else {
        panic!("expected hook prompt message");
    };

    let parsed = parse_hook_prompt_message(/*id*/ None, &content).expect("parsed hook prompt");
    assert_eq!(parsed.fragments, original);
}

#[test]
fn hook_prompt_parses_legacy_single_hook_run_id() {
    let parsed = parse_hook_prompt_fragment(
        r#"<hook_prompt hook_run_id="hook-run-1">Retry with tests.</hook_prompt>"#,
    )
    .expect("legacy hook prompt");

    assert_eq!(
        parsed,
        HookPromptFragment {
            text: "Retry with tests.".to_string(),
            hook_run_id: "hook-run-1".to_string(),
        }
    );
}

#[test]
fn a_fragment_is_written_as_an_element() {
    assert_eq!(
        written("Retry with care & joy.", "hook-run-1"),
        r#"<hook_prompt hook_run_id="hook-run-1">Retry with care &amp; joy.</hook_prompt>"#
    );
    assert_eq!(written("", "run"), r#"<hook_prompt hook_run_id="run"/>"#);
}

#[test]
fn special_characters_are_escaped() {
    assert_eq!(
        written("a<b>c&d\"e'f\tg\nh\ri", "a<b>c&d\"e'f\tg\nh\ri"),
        "<hook_prompt hook_run_id=\"a&lt;b&gt;c&amp;d&quot;e'f&#9;g&#10;h&#13;i\">\
         a&lt;b&gt;c&amp;d\"e'f\tg\nh&#13;i</hook_prompt>"
    );
}

#[test]
fn written_fragments_are_read_back() {
    let texts = [
        "plain",
        " spaces around ",
        "a<b>c&d\"e'f\tg\nh\ri",
        "next line \u{85} and \u{2028} and \u{a0}",
        "]]> <!-- not a comment --> <?pi?> &amp; &#13;",
        "Grüße, 世界 🎉",
        "line\r\nbreak",
        "\u{b}",
    ];
    let ids = ["run", " run ", "a<b>&\"'\t\n\r", "\u{85}\u{2028}x", "ключ"];
    for text in texts {
        for id in ids {
            let xml = written(text, id);
            let fragment = parse_hook_prompt_fragment(&xml);
            assert_eq!(
                fragment,
                Some(HookPromptFragment::from_single_hook(text, id)),
                "{xml:?}"
            );
        }
    }
}

#[test]
fn a_blank_text_is_not_read_back() {
    for text in ["", " ", "\t\n"] {
        let xml = written(text, "run");
        assert_ne!(
            parse_hook_prompt_fragment(&xml),
            Some(HookPromptFragment::from_single_hook(text, "run")),
        );
    }
}

#[test]
fn white_space_around_an_element_is_ignored() {
    assert_eq!(
        parse_hook_prompt_fragment(
            "\n  <hook_prompt hook_run_id=\"run\">text</hook_prompt>\u{a0}\n"
        ),
        Some(HookPromptFragment::from_single_hook("text", "run"))
    );
}

#[test]
fn what_is_no_hook_prompt_is_not_read() {
    for xml in [
        "",
        "plain text",
        "<hook_prompt>text</hook_prompt>",
        "<hook_prompt hook_run_id=\"  \">text</hook_prompt>",
        "<hook_prompt hook_run_id=\"run\">text",
        "<hook_prompt other=\"run\">text</hook_prompt>",
    ] {
        assert_eq!(parse_hook_prompt_fragment(xml), None, "{xml:?}");
    }
}

#[test]
fn fragments_without_a_run_are_left_out_of_the_message() {
    let fragments = vec![
        HookPromptFragment::from_single_hook("one", " "),
        HookPromptFragment::from_single_hook("two", "run"),
        HookPromptFragment::from_single_hook("three", ""),
    ];
    let (id, role, content) =
        content_of(build_hook_prompt_message(&fragments).expect("hook prompt"));
    assert_eq!(id.map(|id| id.len()), Some(36));
    assert_eq!(role, "user");
    assert_eq!(content.len(), 1);
    assert_eq!(
        text_of(&content[0]),
        r#"<hook_prompt hook_run_id="run">two</hook_prompt>"#
    );
    assert!(build_hook_prompt_message(&fragments[..1]).is_none());
    assert!(build_hook_prompt_message(&[]).is_none());
}

#[test]
fn every_part_of_the_message_must_be_a_hook_prompt() {
    let prompt = ContentItem::InputText {
        text: r#"<hook_prompt hook_run_id="run">text</hook_prompt>"#.to_string(),
    };
    let image = ContentItem::InputImage {
        image_url: "https://example.test/image.png".to_string(),
        detail: None,
    };
    let answer = ContentItem::OutputText {
        text: r#"<hook_prompt hook_run_id="run">text</hook_prompt>"#.to_string(),
    };
    let other = ContentItem::InputText {
        text: "hello".to_string(),
    };
    assert!(parse_hook_prompt_message(None, &[]).is_none());
    assert!(parse_hook_prompt_message(None, &[prompt.clone(), image]).is_none());
    assert!(parse_hook_prompt_message(None, &[prompt.clone(), answer]).is_none());
    assert!(parse_hook_prompt_message(None, &[other, prompt.clone()]).is_none());

    let id = "message-1".to_string();
    let item = parse_hook_prompt_message(Some(&id), &[prompt.clone(), prompt]).expect("item");
    assert_eq!(item.id, "message-1");
    assert_eq!(item.fragments.len(), 2);
}

#[test]
fn an_item_keeps_its_identity_or_makes_one_up() {
    let id = "item-1".to_string();
    let fragments = vec![HookPromptFragment::from_single_hook("text", "run")];
    let item = HookPromptItem::from_fragments(Some(&id), fragments.clone());
    assert_eq!(item.id, "item-1");
    assert_eq!(item.fragments, fragments);

    let first = HookPromptItem::from_fragments(None, Vec::new());
    let second = HookPromptItem::from_fragments(None, Vec::new());
    assert_ne!(first.id, second.id);
    for item in [first, second] {
        let bytes = item.id.as_bytes();
        assert_eq!(bytes.len(), 36);
        assert_eq!(bytes[14], b'4');
        assert!(matches!(bytes[19], b'8' | b'9' | b'a' | b'b'));
        for (index, byte) in bytes.iter().enumerate() {
            if matches!(index, 8 | 13 | 18 | 23) {
                assert_eq!(*byte, b'-');
            } else {
                assert!(byte.is_ascii_digit() || (b'a'..=b'f').contains(byte));
            }
        }
    }
}

#[test]
fn a_fragment_needs_a_run_and_a_text() {
    let some = |text: &str| Some(text.to_string());
    assert_eq!(
        hook_prompt_fragment_from_parts(some("run"), some("text")),
        Some(HookPromptFragment::from_single_hook("text", "run"))
    );
    assert_eq!(hook_prompt_fragment_from_parts(some(" \n"), some("text")), None);
    assert_eq!(hook_prompt_fragment_from_parts(None, some("text")), None);
    assert_eq!(hook_prompt_fragment_from_parts(some("run"), None), None);
}

#[test]
fn all_short_texts_are_read_back() {
    let alphabet = [' ', '\t', '\n', '\r', '&', '<', '>', '"', ';', ']', '\0', 'ä'];
    let mut texts = vec![String::new()];
    let mut from = 0;
    for _ in 0..3 {
        let to = texts.len();
        for index in from..to {
            for c in alphabet {
                let longer = format!("{}{c}", texts[index]);
                texts.push(longer);
            }
        }
        from = to;
    }
    assert_eq!(texts.len(), 1 + 12 + 144 + 1728);
    for text in &texts {
        let blank = text.chars().all(|c| matches!(c, ' ' | '\t' | '\n' | '\r'));
        if !blank {
            assert_eq!(
                parse_hook_prompt_fragment(&written(text, "run")),
                Some(HookPromptFragment::from_single_hook(text, "run")),
            );
        }
        if !text.trim().is_empty() {
            assert_eq!(
                parse_hook_prompt_fragment(&written("text", text)),
                Some(HookPromptFragment::from_single_hook("text", text)),
            );
        }
    }
}

fn read(xml: &str) -> Option<(String, String)> {
    parse_hook_prompt_fragment(xml).map(|fragment| (fragment.hook_run_id, fragment.text))
}

fn found(hook_run_id: &str, text: &str) -> Option<(String, String)> {
    Some((hook_run_id.to_string(), text.to_string()))
}

#[test]
fn what_stands_before_the_element_is_ignored() {
    let element = "<hook_prompt hook_run_id=\"run\">text</hook_prompt>";
    for before in [
        "<?xml version=\"1.0\"?>\n",
        "<?xml version=\"1.0\"?>",
        "<!-- a remark -->\n",
        "<!-- one -->\n<!-- two -->\n\t",
        "<?instruction?>\r\n",
        "<!DOCTYPE hook_prompt>\n",
        "\u{feff}",
    ] {
        assert_eq!(read(&format!("{before}{element}")), found("run", "text"), "{before:?}");
    }
    assert_eq!(read(&format!("words{element}")), None);
    assert_eq!(read(&format!("<?xml version=\"2.0\"?>{element}")), None);
}

#[test]
fn what_else_an_element_holds_is_ignored() {
    assert_eq!(
        read("<hook_prompt hook_run_id='run'><x>&unknown;</x>text</hook_prompt>"),
        found("run", "text"),
    );
    assert_eq!(
        read("<hook_prompt other=\"&unknown;\" hook_run_id=\"run\">text</hook_prompt>"),
        found("run", "text"),
    );
    assert_eq!(read("<other hook_run_id=\"run\">text</other>"), found("run", "text"));
    assert_eq!(read("<hook_prompt hook_run_id=\"&unknown;\">text</hook_prompt>"), None);
    assert_eq!(read("<hook_prompt hook_run_id=\"run\">&unknown;</hook_prompt>"), None);
    assert_eq!(
        read("<a><hook_prompt hook_run_id=\"run\">inner</hook_prompt>text</a>"),
        None,
    );
}

#[test]
fn the_run_is_named_once() {
    assert_eq!(read("<h p:hook_run_id=\"run\">text</h>"), found("run", "text"));
    assert_eq!(read("<h xml:hook_run_id=\"run\">text</h>"), None);
    assert_eq!(read("<h xmlns:hook_run_id=\"run\">text</h>"), None);
    assert_eq!(read("<h hook_run_id=\"a\" hook_run_id=\"b\">text</h>"), None);
    assert_eq!(read("<h p:hook_run_id=\"a\" q:hook_run_id=\"b\">text</h>"), None);
    assert_eq!(read("<h Hook_run_id=\"a\">text</h>"), None);
    assert_eq!(read("<h hook_run_id=a>text</h>"), None);
}

#[test]
fn the_version_decides_what_ends_a_line() {
    let element = "<h hook_run_id=\"a\u{85}b\">text</h>";
    assert_eq!(read(element), found("a\u{85}b", "text"));
    assert_eq!(
        read(&format!("<?xml version=\"1.0\"?>{element}")),
        found("a\u{85}b", "text"),
    );
    assert_eq!(read(&format!("<?xml version=\"1.1\"?>\n{element}")), found("a b", "text"));
    assert_eq!(
        read("<h hook_run_id=\"a\u{85}b\"><!-- c --><?xml version=\"1.1\"?>text</h>"),
        found("a b", "text"),
    );
    assert_eq!(
        read("<h hook_run_id=\"a\u{85}b\">text<?xml version=\"1.1\"?></h>"),
        found("a\u{85}b", "text"),
    );
    assert_eq!(read("<h hook_run_id=\"a\tb&#9;c\">text</h>"), found("a b\tc", "text"));
}

#[test]
fn the_first_tag_is_found() {
    let tag = || XmlEvent::Tag("tag".to_string());
    let events = vec![XmlEvent::Remark, XmlEvent::Content, tag(), XmlEvent::Content];
    assert_eq!(find_first_tag(&events), Some(("tag".to_string(), false)));
    let events = vec![XmlEvent::Declaration(true), tag(), XmlEvent::Tag(String::new())];
    assert_eq!(find_first_tag(&events), Some(("tag".to_string(), true)));
    let events = vec![tag(), XmlEvent::Remark, XmlEvent::Declaration(true)];
    assert_eq!(find_first_tag(&events), Some(("tag".to_string(), true)));
    let events = vec![tag(), XmlEvent::Content, XmlEvent::Declaration(true)];
    assert_eq!(find_first_tag(&events), Some(("tag".to_string(), false)));
    assert_eq!(find_first_tag(&vec![XmlEvent::Content]), None);
}

#[test]
fn an_attribute_is_found_by_its_name() {
    let attribute = |prefix: Option<&str>, name: &str, value: &str| XmlAttribute {
        prefix: prefix.map(str::to_string),
        name: name.to_string(),
        value: value.to_string(),
    };
    let attributes = vec![
        attribute(None, "a", "1"),
        attribute(Some("p"), "b", "2"),
        attribute(Some("xml"), "a", "3"),
        attribute(Some("xmlns"), "b", "4"),
        attribute(None, "c", "5"),
        attribute(Some("p"), "c", "6"),
    ];
    assert_eq!(find_value_named(&attributes, "a"), Some("1".to_string()));
    assert_eq!(find_value_named(&attributes, "b"), Some("2".to_string()));
    assert_eq!(find_value_named(&attributes, "c"), None);
    assert_eq!(find_value_named(&attributes, "d"), None);
}
