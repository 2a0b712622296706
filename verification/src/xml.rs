//! XML elements that have one attribute and a text: how they are written, and what is read of a
//! document's root element.

use quick_xml::events::attributes::{Attribute, Attributes};
use quick_xml::events::Event;
use quick_xml::XmlVersion;
use vstd::prelude::*;

use crate::text::same_text;

verus! {

/// A character as it is written in an attribute between double quotes.
pub open spec fn escaped_in_attribute(c: char) -> Seq<char> {
    if c == '&' {
        "&amp;"@
    } else if c == '<' {
        "&lt;"@
    } else if c == '>' {
        "&gt;"@
    } else if c == '"' {
        "&quot;"@
    } else if c == '\t' {
        "&#9;"@
    } else if c == '\n' {
        "&#10;"@
    } else if c == '\r' {
        "&#13;"@
    } else {
        seq![c]
    }
}

/// A character as it is written in the text of an element.
pub open spec fn escaped_in_text(c: char) -> Seq<char> {
    if c == '&' {
        "&amp;"@
    } else if c == '<' {
        "&lt;"@
    } else if c == '>' {
        "&gt;"@
    } else if c == '\r' {
        "&#13;"@
    } else {
        seq![c]
    }
}

/// A text as it is written in an attribute.
pub open spec fn attribute_text(value: Seq<char>) -> Seq<char>
    decreases value.len(),
{
    if value.len() == 0 {
        seq![]
    } else {
        attribute_text(value.drop_last()) + escaped_in_attribute(value.last())
    }
}

/// A text as it is written in an element.
pub open spec fn element_text(value: Seq<char>) -> Seq<char>
    decreases value.len(),
{
    if value.len() == 0 {
        seq![]
    } else {
        element_text(value.drop_last()) + escaped_in_text(value.last())
    }
}

/// An attribute as it stands behind the name of a tag.
pub open spec fn tag_attribute(attribute: Seq<char>, value: Seq<char>) -> Seq<char> {
    " "@ + attribute + "=\""@ + attribute_text(value) + "\""@
}

/// An element with one attribute and a text.
pub open spec fn xml_element(
    tag: Seq<char>,
    attribute: Seq<char>,
    value: Seq<char>,
    text: Seq<char>,
) -> Seq<char> {
    "<"@ + tag + tag_attribute(attribute, value) + if text.len() == 0 {
        "/>"@
    } else {
        ">"@ + element_text(text) + "</"@ + tag + ">"@
    }
}

/// A name of small letters and underscores that does not stand for a namespace.
pub open spec fn is_plain_name(name: Seq<char>) -> bool {
    &&& name.len() > 0
    &&& name != "xmlns"@
    &&& forall|i: int|
        0 <= i < name.len() ==> (('a' <= #[trigger] name[i] && name[i] <= 'z') || name[i] == '_')
}

/// Every character is one of the four that XML takes for white space.
pub open spec fn is_xml_blank(text: Seq<char>) -> bool {
    forall|i: int|
        0 <= i < text.len() ==> (#[trigger] text[i] == ' ' || text[i] == '\t' || text[i] == '\n'
            || text[i] == '\r')
}

/// Calls `quick_xml::se::to_string_with_root` for an element with one attribute and a text. Under
/// a plain name it writes the start tag, the escaped value and the escaped text as
/// [`xml_element`] says, and does not fail.
#[verifier::external_body]
pub(crate) fn write_xml_element(tag: &str, attribute: &str, value: &str, text: &str) -> (xml:
    Option<String>)
    requires
        is_plain_name(tag@),
        is_plain_name(attribute@),
    ensures
        xml.deep_view() == Some(xml_element(tag@, attribute@, value@, text@)),
{
    let mut fields = std::collections::BTreeMap::new();
    fields.insert(format!("@{attribute}"), value);
    fields.insert(String::from("$text"), text);
    quick_xml::se::to_string_with_root(tag, &fields).ok()
}

/// The text of the root element of a document, as `quick_xml` reads it: `None` where the document
/// cannot be read, or where its root element has no text or more than one.
pub uninterp spec fn xml_text_content(xml: Seq<char>) -> Option<Seq<char>>;

/// Calls the deserializer of `quick_xml` for the text of the root element. The result is named;
/// of it this is said: the text of a written element comes back, unless it is blank.
#[verifier::external_body]
pub(crate) fn read_xml_text(xml: &str) -> (text: Option<String>)
    ensures
        text.deep_view() == xml_text_content(xml@),
        forall|tag: Seq<char>, attribute: Seq<char>, value: Seq<char>, written: Seq<char>|
            xml@ == #[trigger] xml_element(tag, attribute, value, written) && is_plain_name(tag)
                && is_plain_name(attribute) && !is_xml_blank(written) ==> text.deep_view() == Some(
                written,
            ),
{
    let mut document = quick_xml::de::Deserializer::from_str(xml);
    quick_xml::serde_helpers::text_content::deserialize::<_, String>(&mut document).ok()
}

/// A part of a document, as a reader meets it.
#[derive(Clone, Debug, PartialEq, Eq)]
pub enum XmlEvent {
    /// The start of an element, with what stands behind its name in the tag.
    Tag(String),
    /// An XML declaration, and whether it declares version 1.1.
    Declaration(bool),
    /// A comment or a processing instruction.
    Remark,
    /// Anything else: text, a reference, a document type, or the end of an element.
    Content,
}

/// What `XmlEvent` stands for.
#[verifier::ext_equal]
pub enum XmlEventView {
    Tag(Seq<char>),
    Declaration(bool),
    Remark,
    Content,
}

impl DeepView for XmlEvent {
    type V = XmlEventView;

    open spec fn deep_view(&self) -> XmlEventView {
        match self {
            XmlEvent::Tag(attributes) => XmlEventView::Tag(attributes@),
            XmlEvent::Declaration(newer) => XmlEventView::Declaration(*newer),
            XmlEvent::Remark => XmlEventView::Remark,
            XmlEvent::Content => XmlEventView::Content,
        }
    }
}

/// An attribute of a tag: the prefix of its name if there is one, the name behind it, and the value
/// as it is written.
#[derive(Clone, Debug, PartialEq, Eq)]
pub struct XmlAttribute {
    pub prefix: Option<String>,
    pub name: String,
    pub value: String,
}

/// What `XmlAttribute` stands for.
#[verifier::ext_equal]
pub struct XmlAttributeView {
    pub prefix: Option<Seq<char>>,
    pub name: Seq<char>,
    pub value: Seq<char>,
}

impl DeepView for XmlAttribute {
    type V = XmlAttributeView;

    open spec fn deep_view(&self) -> XmlAttributeView {
        XmlAttributeView {
            prefix: self.prefix.deep_view(),
            name: self.name@,
            value: self.value@,
        }
    }
}

/// The parts of a document in their order, as `quick_xml` reads them, up to its end or to the first
/// part that cannot be read.
pub uninterp spec fn xml_events(xml: Seq<char>) -> Seq<XmlEventView>;

/// Calls `quick_xml::Reader::read_event` until the document ends or cannot be read, with empty
/// elements taken for a start and an end. The result is named; of it this is said: a written
/// element starts with its tag, and no declaration, comment or processing instruction follows the
/// tag.
#[verifier::external_body]
fn read_xml_events(xml: &str) -> (events: Vec<XmlEvent>)
    ensures
        events.deep_view() == xml_events(xml@),
        forall|tag: Seq<char>, attribute: Seq<char>, value: Seq<char>, text: Seq<char>|
            xml@ == #[trigger] xml_element(tag, attribute, value, text) && is_plain_name(tag)
                && is_plain_name(attribute) ==> {
                &&& events.deep_view().len() >= 2
                &&& events.deep_view()[0] == XmlEventView::Tag(tag_attribute(attribute, value))
                &&& events.deep_view()[1] == XmlEventView::Content
            },
{
    let mut reader = quick_xml::Reader::from_str(xml);
    reader.config_mut().expand_empty_elements = true;
    std::iter::from_fn(|| Some(match reader.read_event().ok()? {
        Event::Start(tag) | Event::Empty(tag) => XmlEvent::Tag(tag.attributes_raw().into()),
        Event::Decl(item) =>
            XmlEvent::Declaration(item.xml_version().ok()? == XmlVersion::Explicit1_1),
        Event::Comment(_) => XmlEvent::Remark,
        Event::PI(_) => XmlEvent::Remark,
        Event::Text(_) => XmlEvent::Content,
        Event::CData(_) => XmlEvent::Content,
        Event::GeneralRef(_) => XmlEvent::Content,
        Event::DocType(_) => XmlEvent::Content,
        Event::End(_) => XmlEvent::Content,
        Event::Eof => return None,
    })).collect()
}

/// The attributes that stand behind the name of a tag, as `quick_xml` reads them: `None` where they
/// cannot be read.
pub uninterp spec fn xml_attributes(tag: Seq<char>) -> Option<Seq<XmlAttributeView>>;

/// Calls `quick_xml::events::attributes::Attributes`, the iterator over the attributes of a tag.
/// The result is named; of it this is said: a written attribute is the only one, with the value as
/// it is written.
#[verifier::external_body]
fn read_xml_attributes(tag: &str) -> (attributes: Option<Vec<XmlAttribute>>)
    ensures
        attributes.deep_view() == xml_attributes(tag@),
        forall|attribute: Seq<char>, value: Seq<char>|
            tag@ == #[trigger] tag_attribute(attribute, value) && is_plain_name(attribute)
                ==> attributes.deep_view() == Some(
                seq![
                    XmlAttributeView {
                        prefix: None,
                        name: attribute,
                        value: attribute_text(value),
                    },
                ],
            ),
{
    Attributes::new(tag, 0).map(|attribute| {
        let attribute = attribute.ok()?;
        let (name, prefix) = attribute.key.decompose();
        Some(XmlAttribute {
            prefix: prefix.map(|prefix| prefix.into_inner().into()),
            name: name.into_inner().into(),
            value: attribute.value.into(),
        })
    }).collect()
}

/// What the written value of an attribute stands for in a document of version 1.0 or 1.1, as
/// `quick_xml` reads it: `None` where it holds a reference that cannot be resolved.
pub uninterp spec fn xml_attribute_value(value: Seq<char>, newer: bool) -> Option<Seq<char>>;

/// Calls `quick_xml::events::attributes::Attribute::normalized_value`. The result is named; of it
/// this is said: in version 1.0 a written value comes back.
#[verifier::external_body]
fn read_xml_attribute_value(value: &str, newer: bool) -> (text: Option<String>)
    ensures
        text.deep_view() == xml_attribute_value(value@, newer),
        forall|written: Seq<char>|
            value@ == #[trigger] attribute_text(written) && !newer ==> text.deep_view() == Some(
                written,
            ),
{
    let version = match newer {
        true => XmlVersion::Explicit1_1,
        false => XmlVersion::Explicit1_0,
    };
    let key = quick_xml::name::QName("");
    let attribute = Attribute { key, value: value.into() };
    attribute.normalized_value(version).ok().map(String::from)
}

/// The version that holds where `events` come next: that of the last declaration before any
/// content, and else the version so far.
pub open spec fn version_ahead(events: Seq<XmlEventView>, newer: bool) -> bool
    decreases events.len(),
{
    if events.len() == 0 {
        newer
    } else {
        match events[0] {
            XmlEventView::Declaration(declared) => version_ahead(events.drop_first(), declared),
            XmlEventView::Remark => version_ahead(events.drop_first(), newer),
            _ => newer,
        }
    }
}

/// The first tag, with the version that holds for it: that of the last declaration before the tag
/// or right behind it.
pub open spec fn first_tag(events: Seq<XmlEventView>, newer: bool) -> Option<(Seq<char>, bool)>
    decreases events.len(),
{
    if events.len() == 0 {
        None
    } else {
        match events[0] {
            XmlEventView::Tag(attributes) => Some(
                (attributes, version_ahead(events.drop_first(), newer)),
            ),
            XmlEventView::Declaration(declared) => first_tag(events.drop_first(), declared),
            _ => first_tag(events.drop_first(), newer),
        }
    }
}

/// Finds the version that holds where the events from `from` on come next.
fn find_version(events: &Vec<XmlEvent>, from: usize, newer: bool) -> (version: bool)
    requires
        from <= events@.len(),
    ensures
        version == version_ahead(events.deep_view().skip(from as int), newer),
{
    let mut version = newer;
    let mut index: usize = from;
    let ghost views = events.deep_view();
    while index < events.len()
        invariant
            index <= events@.len(),
            views == events.deep_view(),
            version_ahead(views.skip(from as int), newer) == version_ahead(
                views.skip(index as int),
                version,
            ),
        decreases events@.len() - index,
    {
        assert(views.skip(index as int).drop_first() =~= views.skip(index + 1));
        assert(views.skip(index as int)[0] == events@[index as int].deep_view());
        match &events[index] {
            XmlEvent::Declaration(declared) => {
                version = *declared;
            },
            XmlEvent::Remark => {},
            _ => {
                return version;
            },
        }
        index += 1;
    }
    version
}

/// Finds the first tag of a document, and the version that holds for it.
pub fn find_first_tag(events: &Vec<XmlEvent>) -> (tag: Option<(String, bool)>)
    ensures
        tag.deep_view() == first_tag(events.deep_view(), false),
{
    let mut version = false;
    let mut index: usize = 0;
    let ghost views = events.deep_view();
    assert(views.skip(0) =~= views);
    while index < events.len()
        invariant
            index <= events@.len(),
            views == events.deep_view(),
            first_tag(views, false) == first_tag(views.skip(index as int), version),
        decreases events@.len() - index,
    {
        assert(views.skip(index as int).drop_first() =~= views.skip(index + 1));
        assert(views.skip(index as int)[0] == events@[index as int].deep_view());
        match &events[index] {
            XmlEvent::Tag(attributes) => {
                return Some((attributes.clone(), find_version(events, index + 1, version)));
            },
            XmlEvent::Declaration(declared) => {
                version = *declared;
            },
            _ => {},
        }
        index += 1;
    }
    None
}

impl XmlAttributeView {
    /// The attribute goes by `name`: a prefix does not count, unless it is one that XML keeps for
    /// itself.
    pub open spec fn goes_by(self, name: Seq<char>) -> bool {
        &&& self.name == name
        &&& self.prefix != Some("xml"@)
        &&& self.prefix != Some("xmlns"@)
    }
}

/// The values of the attributes that go by `name`.
pub open spec fn values_named(attributes: Seq<XmlAttributeView>, name: Seq<char>) -> Seq<Seq<char>>
    decreases attributes.len(),
{
    if attributes.len() == 0 {
        seq![]
    } else if attributes.last().goes_by(name) {
        values_named(attributes.drop_last(), name).push(attributes.last().value)
    } else {
        values_named(attributes.drop_last(), name)
    }
}

/// The value of the attribute that goes by `name`: there is none where no attribute does, or more
/// than one.
pub open spec fn value_named(attributes: Seq<XmlAttributeView>, name: Seq<char>) -> Option<
    Seq<char>,
> {
    let values = values_named(attributes, name);
    if values.len() == 1 {
        Some(values[0])
    } else {
        None
    }
}

/// Tests whether an attribute goes by `name`.
fn attribute_goes_by(attribute: &XmlAttribute, name: &str) -> (r: bool)
    ensures
        r == attribute.deep_view().goes_by(name@),
{
    let reserved = match &attribute.prefix {
        Some(prefix) => same_text(prefix.as_str(), "xml") || same_text(prefix.as_str(), "xmlns"),
        None => false,
    };
    !reserved && same_text(attribute.name.as_str(), name)
}

/// Finds the value of the attribute that goes by `name`.
pub fn find_value_named(attributes: &Vec<XmlAttribute>, name: &str) -> (value: Option<String>)
    ensures
        value.deep_view() == value_named(attributes.deep_view(), name@),
{
    let mut values: Vec<String> = Vec::new();
    let mut index: usize = 0;
    let ghost views = attributes.deep_view();
    assert(values.deep_view() =~= values_named(views.take(0), name@));
    while index < attributes.len()
        invariant
            index <= attributes@.len(),
            views == attributes.deep_view(),
            values.deep_view() == values_named(views.take(index as int), name@),
        decreases attributes@.len() - index,
    {
        let ghost before = values.deep_view();
        assert(views.take(index + 1).drop_last() =~= views.take(index as int));
        assert(views.take(index + 1).last() == attributes@[index as int].deep_view());
        if attribute_goes_by(&attributes[index], name) {
            values.push(attributes[index].value.clone());
            assert(values.deep_view() =~= before.push(attributes@[index as int].value@));
        }
        index += 1;
    }
    assert(views.take(views.len() as int) =~= views);
    if values.len() == 1 {
        Some(values[0].clone())
    } else {
        None
    }
}

/// What is read of an attribute of a document's root element.
pub open spec fn root_attribute(xml: Seq<char>, name: Seq<char>) -> Option<Seq<char>> {
    match first_tag(xml_events(xml), false) {
        Some((tag, newer)) => match xml_attributes(tag) {
            Some(attributes) => match value_named(attributes, name) {
                Some(value) => xml_attribute_value(value, newer),
                None => None,
            },
            None => None,
        },
        None => None,
    }
}

/// The events of a written element start with its tag, in a document of version 1.0.
proof fn lemma_first_tag(events: Seq<XmlEventView>, tag: Seq<char>)
    requires
        events.len() >= 2,
        events[0] == XmlEventView::Tag(tag),
        events[1] == XmlEventView::Content,
    ensures
        first_tag(events, false) == Some((tag, false)),
{
    assert(events.drop_first()[0] == events[1]);
}

/// The only attribute of a tag is found by its name.
proof fn lemma_only_value(name: Seq<char>, value: Seq<char>)
    ensures
        value_named(seq![XmlAttributeView { prefix: None, name, value }], name) == Some(value),
{
    let attributes = seq![XmlAttributeView { prefix: None, name, value }];
    assert(attributes.drop_last() =~= seq![]);
    assert(values_named(attributes.drop_last(), name) =~= seq![]);
    assert(attributes.last().goes_by(name));
    assert(values_named(attributes, name) =~= seq![value]);
}

/// Reads an attribute of a document's root element.
///
/// The value of a written attribute is read back.
pub fn read_root_attribute(xml: &str, name: &str) -> (value: Option<String>)
    ensures
        value.deep_view() == root_attribute(xml@, name@),
        forall|tag: Seq<char>, written: Seq<char>, text: Seq<char>|
            xml@ == #[trigger] xml_element(tag, name@, written, text) && is_plain_name(tag)
                && is_plain_name(name@) ==> value.deep_view() == Some(written),
{
    let events = read_xml_events(xml);
    let found = find_first_tag(&events);
    let (tag, newer) = match found {
        Some(first) => first,
        None => {
            proof {
                assert forall|root: Seq<char>, written: Seq<char>, text: Seq<char>|
                    xml@ == #[trigger] xml_element(root, name@, written, text) && is_plain_name(
                        root,
                    ) && is_plain_name(name@) implies false by {
                    lemma_first_tag(events.deep_view(), tag_attribute(name@, written));
                }
            }
            return None;
        },
    };
    let attributes = read_xml_attributes(tag.as_str());
    proof {
        assert forall|root: Seq<char>, written: Seq<char>, text: Seq<char>|
            xml@ == #[trigger] xml_element(root, name@, written, text) && is_plain_name(root)
                && is_plain_name(name@) implies !newer && attributes is Some && value_named(
            attributes->0.deep_view(),
            name@,
        ) == Some(attribute_text(written)) by {
            lemma_first_tag(events.deep_view(), tag_attribute(name@, written));
            lemma_only_value(name@, attribute_text(written));
        }
    }
    match attributes {
        Some(attributes) => match find_value_named(&attributes, name) {
            Some(value) => read_xml_attribute_value(value.as_str(), newer),
            None => None,
        },
        None => None,
    }
}

/// A value is written in an attribute part by part, and a text in an element.
pub proof fn law_xml_is_written_part_by_part(a: Seq<char>, b: Seq<char>)
    ensures
        attribute_text(a + b) == attribute_text(a) + attribute_text(b),
        element_text(a + b) == element_text(a) + element_text(b),
    decreases b.len(),
{
    if b.len() == 0 {
        assert(a + b =~= a);
        assert(attribute_text(a) + attribute_text(b) =~= attribute_text(a));
        assert(element_text(a) + element_text(b) =~= element_text(a));
    } else {
        law_xml_is_written_part_by_part(a, b.drop_last());
        assert((a + b).drop_last() =~= a + b.drop_last());
        assert((a + b).last() == b.last());
        assert(attribute_text(a) + (attribute_text(b.drop_last()) + escaped_in_attribute(b.last()))
            =~= attribute_text(a) + attribute_text(b.drop_last()) + escaped_in_attribute(b.last()));
        assert(element_text(a) + (element_text(b.drop_last()) + escaped_in_text(b.last()))
            =~= element_text(a) + element_text(b.drop_last()) + escaped_in_text(b.last()));
    }
}

/// What is written in an attribute or an element holds no character that would end it, and every
/// character that needs no escape is written as itself.
pub proof fn law_xml_escapes(c: char)
    ensures
        forall|i: int|
            0 <= i < escaped_in_attribute(c).len() ==> #[trigger] escaped_in_attribute(c)[i] != '"'
                && escaped_in_attribute(c)[i] != '<' && escaped_in_attribute(c)[i] != '>'
                && escaped_in_attribute(c)[i] != '\n' && escaped_in_attribute(c)[i] != '\r'
                && escaped_in_attribute(c)[i] != '\t',
        forall|i: int|
            0 <= i < escaped_in_text(c).len() ==> #[trigger] escaped_in_text(c)[i] != '<'
                && escaped_in_text(c)[i] != '>' && escaped_in_text(c)[i] != '\r',
        c != '&' && c != '<' && c != '>' && c != '"' && c != '\t' && c != '\n' && c != '\r'
            ==> escaped_in_attribute(c) == seq![c],
        c != '&' && c != '<' && c != '>' && c != '\r' ==> escaped_in_text(c) == seq![c],
        escaped_in_attribute('&') == "&amp;"@ && escaped_in_text('&') == "&amp;"@,
        escaped_in_attribute('<') == "&lt;"@ && escaped_in_text('<') == "&lt;"@,
        escaped_in_attribute('>') == "&gt;"@ && escaped_in_text('>') == "&gt;"@,
        escaped_in_attribute('"') == "&quot;"@,
        escaped_in_attribute('\t') == "&#9;"@,
        escaped_in_attribute('\n') == "&#10;"@,
        escaped_in_attribute('\r') == "&#13;"@ && escaped_in_text('\r') == "&#13;"@,
{
    reveal_strlit("&amp;");
    reveal_strlit("&lt;");
    reveal_strlit("&gt;");
    reveal_strlit("&quot;");
    reveal_strlit("&#9;");
    reveal_strlit("&#10;");
    reveal_strlit("&#13;");
}

/// An attribute goes by its own name, with or without a prefix, unless the prefix is one that XML
/// keeps for itself.
pub proof fn law_attributes_go_by_their_name(attribute: XmlAttributeView, name: Seq<char>)
    ensures
        attribute.goes_by(name) ==> attribute.name == name,
        attribute.name == name && attribute.prefix is None ==> attribute.goes_by(name),
        attribute.prefix == Some("xml"@) || attribute.prefix == Some("xmlns"@)
            ==> !attribute.goes_by(name),
        attribute.name == name && attribute.prefix != Some("xml"@) && attribute.prefix != Some(
            "xmlns"@,
        ) ==> attribute.goes_by(name),
{
}

/// The values of a name are those of the attributes that go by it, in order.
pub proof fn law_values_of_a_name(
    attributes: Seq<XmlAttributeView>,
    attribute: XmlAttributeView,
    name: Seq<char>,
)
    ensures
        values_named(seq![], name).len() == 0,
        attribute.goes_by(name) ==> values_named(attributes.push(attribute), name) == values_named(
            attributes,
            name,
        ).push(attribute.value),
        !attribute.goes_by(name) ==> values_named(attributes.push(attribute), name)
            == values_named(attributes, name),
{
    assert(attributes.push(attribute).drop_last() =~= attributes);
    assert(attributes.push(attribute).last() == attribute);
}

/// A name has a value where one attribute goes by it; it has none where no attribute does, or
/// more than one.
pub proof fn law_value_of_a_name(attributes: Seq<XmlAttributeView>, name: Seq<char>)
    ensures
        value_named(attributes, name) is Some <==> values_named(attributes, name).len() == 1,
        value_named(attributes, name) matches Some(value) ==> value == values_named(
            attributes,
            name,
        )[0],
{
}

/// The first tag is found behind whatever stands before it. What is declared before it, or between
/// it and the next of the document's parts, is the version that it is read by; remarks make no
/// difference.
pub proof fn law_first_tag(
    before: Seq<XmlEventView>,
    tag: Seq<char>,
    after: Seq<XmlEventView>,
    newer: bool,
    declared: bool,
)
    requires
        forall|i: int|
            0 <= i < before.len() ==> !(#[trigger] before[i] is Tag) && !(before[i]
                is Declaration),
    ensures
        first_tag(before, newer) is None,
        first_tag(before.push(XmlEventView::Tag(tag)) + after, newer) == Some(
            (tag, version_ahead(after, newer)),
        ),
        first_tag(
            before.push(XmlEventView::Declaration(declared)).push(XmlEventView::Tag(tag)) + after,
            newer,
        ) == Some((tag, version_ahead(after, declared))),
    decreases before.len(),
{
    let plain = before.push(XmlEventView::Tag(tag)) + after;
    let versioned = before.push(XmlEventView::Declaration(declared)).push(XmlEventView::Tag(tag))
        + after;
    if before.len() == 0 {
        assert(plain[0] == XmlEventView::Tag(tag));
        assert(plain.drop_first() =~= after);
        assert(versioned[0] == XmlEventView::Declaration(declared));
        assert(versioned.drop_first() =~= plain);
        assert(first_tag(versioned, newer) == first_tag(plain, declared));
        assert(first_tag(plain, declared) == Some((tag, version_ahead(after, declared))));
    } else {
        let rest = before.drop_first();
        assert forall|i: int| 0 <= i < rest.len() implies !(#[trigger] rest[i] is Tag) && !(rest[i]
            is Declaration) by {
            assert(rest[i] == before[i + 1]);
        }
        law_first_tag(rest, tag, after, newer, declared);
        assert(plain[0] == before[0]);
        assert(versioned[0] == before[0]);
        assert(plain.drop_first() =~= rest.push(XmlEventView::Tag(tag)) + after);
        assert(versioned.drop_first() =~= rest.push(XmlEventView::Declaration(declared)).push(
            XmlEventView::Tag(tag),
        ) + after);
    }
}

/// The version by which a tag is read is the last that is declared before the document goes on:
/// the one before it, where none is.
pub proof fn law_version_ahead(events: Seq<XmlEventView>, newer: bool, declared: bool)
    ensures
        version_ahead(seq![], newer) == newer,
        events.len() > 0 && !(events[0] is Declaration) && !(events[0] is Remark) ==> version_ahead(
            events,
            newer,
        ) == newer,
        version_ahead(seq![XmlEventView::Declaration(declared)] + events, newer) == version_ahead(
            events,
            declared,
        ),
        version_ahead(seq![XmlEventView::Remark] + events, newer) == version_ahead(events, newer),
{
    let first = seq![XmlEventView::Declaration(declared)] + events;
    let second = seq![XmlEventView::Remark] + events;
    assert(first.drop_first() =~= events);
    assert(second.drop_first() =~= events);
    assert(first[0] == XmlEventView::Declaration(declared));
    assert(second[0] == XmlEventView::Remark);
}

/// The attribute of a document is the value of that name in its first tag, read by the version of
/// that tag; there is none where any of these is missing.
pub proof fn law_attribute_of_a_document(xml: Seq<char>, name: Seq<char>)
    ensures
        first_tag(xml_events(xml), false) is None ==> root_attribute(xml, name) is None,
        first_tag(xml_events(xml), false) matches Some((tag, newer)) ==> {
            &&& xml_attributes(tag) is None ==> root_attribute(xml, name) is None
            &&& xml_attributes(tag) matches Some(attributes) ==> {
                &&& value_named(attributes, name) is None ==> root_attribute(xml, name) is None
                &&& value_named(attributes, name) matches Some(value) ==> root_attribute(xml, name)
                    == xml_attribute_value(value, newer)
            }
        },
{
}

/// An element opens with its tag and its attribute, holds its text and closes; one without a text
/// closes at once.
pub proof fn law_shape_of_an_element(
    tag: Seq<char>,
    attribute: Seq<char>,
    value: Seq<char>,
    text: Seq<char>,
)
    ensures
        text.len() == 0 ==> xml_element(tag, attribute, value, text) == "<"@ + tag + " "@
            + attribute + "=\""@ + attribute_text(value) + "\"/>"@,
        text.len() > 0 ==> xml_element(tag, attribute, value, text) == "<"@ + tag + " "@ + attribute
            + "=\""@ + attribute_text(value) + "\">"@ + element_text(text) + "</"@ + tag + ">"@,
{
    reveal_strlit("\"");
    reveal_strlit("/>");
    reveal_strlit(">");
    reveal_strlit("\"/>");
    reveal_strlit("\">");
    assert("\"/>"@ =~= "\""@ + "/>"@);
    assert("\">"@ =~= "\""@ + ">"@);
    if text.len() == 0 {
        assert(xml_element(tag, attribute, value, text) =~= "<"@ + tag + " "@ + attribute + "=\""@
            + attribute_text(value) + "\"/>"@);
    } else {
        assert(xml_element(tag, attribute, value, text) =~= "<"@ + tag + " "@ + attribute + "=\""@
            + attribute_text(value) + "\">"@ + element_text(text) + "</"@ + tag + ">"@);
    }
}

/// What is declared first is in force until something else is declared, and all else before the
/// first tag makes no difference.
pub proof fn law_declarations_before_the_first_tag(
    event: XmlEventView,
    events: Seq<XmlEventView>,
    newer: bool,
)
    ensures
        event matches XmlEventView::Declaration(declared) ==> first_tag(seq![event] + events, newer)
            == first_tag(events, declared),
        !(event is Declaration) && !(event is Tag) ==> first_tag(seq![event] + events, newer)
            == first_tag(events, newer),
{
    assert((seq![event] + events).drop_first() =~= events);
    assert((seq![event] + events)[0] == event);
}

} // verus!
