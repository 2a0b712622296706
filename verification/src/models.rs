//! The data that turns are made of.

use std::path::PathBuf;

use vstd::prelude::*;

use crate::duplicate::Duplicate;
use crate::json::{JsonValue, JsonValueView};

verus! {

/// The identity of a thread: the 128 bits of its UUID.
pub type ThreadId = u128;

/// How closely a model looks at an image.
#[derive(Clone, Copy, Debug, PartialEq, Eq, Structural)]
pub enum ImageDetail {
    Auto,
    Low,
    High,
    Original,
}

impl DeepView for ImageDetail {
    type V = ImageDetail;

    open spec fn deep_view(&self) -> ImageDetail {
        *self
    }
}

/// What a message of the assistant is within its turn.
#[derive(Clone, Copy, Debug, PartialEq, Eq, Structural)]
pub enum MessagePhase {
    Commentary,
    FinalAnswer,
}

impl DeepView for MessagePhase {
    type V = MessagePhase;

    open spec fn deep_view(&self) -> MessagePhase {
        *self
    }
}

/// How much a model reasons.
#[derive(Clone, Copy, Debug, PartialEq, Eq, Structural)]
pub enum ReasoningEffort {
    NoEffort,
    Minimal,
    Low,
    Medium,
    High,
    XHigh,
}

impl DeepView for ReasoningEffort {
    type V = ReasoningEffort;

    open spec fn deep_view(&self) -> ReasoningEffort {
        *self
    }
}

impl Default for ReasoningEffort {
    fn default() -> (effort: ReasoningEffort)
        ensures
            effort == ReasoningEffort::Medium,
    {
        ReasoningEffort::Medium
    }
}

/// A part of a message.
#[derive(Clone, Debug, PartialEq)]
pub enum ContentItem {
    InputText { text: String },
    InputImage { image_url: String, detail: Option<ImageDetail> },
    OutputText { text: String },
}

/// What `ContentItem` stands for.
#[verifier::ext_equal]
pub enum ContentItemView {
    InputText { text: Seq<char> },
    InputImage { image_url: Seq<char>, detail: Option<ImageDetail> },
    OutputText { text: Seq<char> },
}

impl DeepView for ContentItem {
    type V = ContentItemView;

    open spec fn deep_view(&self) -> ContentItemView {
        match self {
            ContentItem::InputText { text } => ContentItemView::InputText {
                text: text@,
            },
            ContentItem::InputImage { image_url, detail } => ContentItemView::InputImage {
                image_url: image_url@,
                detail: detail.deep_view(),
            },
            ContentItem::OutputText { text } => ContentItemView::OutputText {
                text: text@,
            },
        }
    }
}

impl Duplicate for ContentItem {
    fn duplicate(&self) -> (copy: Self) {
        let copy = match self {
            ContentItem::InputText { text } => ContentItem::InputText {
                text: text.clone(),
            },
            ContentItem::InputImage { image_url, detail } => ContentItem::InputImage {
                image_url: image_url.clone(),
                detail: *detail,
            },
            ContentItem::OutputText { text } => ContentItem::OutputText {
                text: text.clone(),
            },
        };
        assert(copy.deep_view() =~= self.deep_view());
        copy
    }
}

/// An item of the conversation with a model.
#[derive(Clone, Debug, PartialEq)]
pub enum ResponseItem {
    Message {
        id: Option<String>,
        role: String,
        content: Vec<ContentItem>,
        phase: Option<MessagePhase>,
        internal_chat_message_metadata_passthrough: Option<JsonValue>,
    },
    Other,
}

/// What `ResponseItem` stands for.
#[verifier::ext_equal]
pub enum ResponseItemView {
    Message {
        id: Option<Seq<char>>,
        role: Seq<char>,
        content: Seq<ContentItemView>,
        phase: Option<MessagePhase>,
        internal_chat_message_metadata_passthrough: Option<JsonValueView>,
    },
    Other,
}

impl DeepView for ResponseItem {
    type V = ResponseItemView;

    open spec fn deep_view(&self) -> ResponseItemView {
        match self {
            ResponseItem::Message { id, role, content, phase, internal_chat_message_metadata_passthrough } =>
                ResponseItemView::Message {
                id: id.deep_view(),
                role: role@,
                content: content.deep_view(),
                phase: phase.deep_view(),
                internal_chat_message_metadata_passthrough: internal_chat_message_metadata_passthrough.deep_view(),
            },
            ResponseItem::Other => ResponseItemView::Other,
        }
    }
}

/// Where in a memory something was found.
#[derive(Clone, Debug, PartialEq)]
pub struct MemoryCitationEntry {
    pub path: String,
    pub line_start: u32,
    pub line_end: u32,
    pub note: String,
}

/// What `MemoryCitationEntry` stands for.
#[verifier::ext_equal]
pub struct MemoryCitationEntryView {
    pub path: Seq<char>,
    pub line_start: u32,
    pub line_end: u32,
    pub note: Seq<char>,
}

impl DeepView for MemoryCitationEntry {
    type V = MemoryCitationEntryView;

    open spec fn deep_view(&self) -> MemoryCitationEntryView {
        MemoryCitationEntryView {
            path: self.path@,
            line_start: self.line_start,
            line_end: self.line_end,
            note: self.note@,
        }
    }
}

impl Duplicate for MemoryCitationEntry {
    fn duplicate(&self) -> (copy: Self) {
        let copy = MemoryCitationEntry {
            path: self.path.clone(),
            line_start: self.line_start,
            line_end: self.line_end,
            note: self.note.clone(),
        };
        assert(copy.deep_view() =~= self.deep_view());
        copy
    }
}

/// The memories that a message draws on.
#[derive(Clone, Debug, PartialEq)]
pub struct MemoryCitation {
    pub entries: Vec<MemoryCitationEntry>,
    pub rollout_ids: Vec<String>,
}

/// What `MemoryCitation` stands for.
#[verifier::ext_equal]
pub struct MemoryCitationView {
    pub entries: Seq<MemoryCitationEntryView>,
    pub rollout_ids: Seq<Seq<char>>,
}

impl DeepView for MemoryCitation {
    type V = MemoryCitationView;

    open spec fn deep_view(&self) -> MemoryCitationView {
        MemoryCitationView {
            entries: self.entries.deep_view(),
            rollout_ids: self.rollout_ids.deep_view(),
        }
    }
}

impl Duplicate for MemoryCitation {
    fn duplicate(&self) -> (copy: Self) {
        let copy = MemoryCitation {
            entries: self.entries.duplicate(),
            rollout_ids: self.rollout_ids.duplicate(),
        };
        assert(copy.deep_view() =~= self.deep_view());
        copy
    }
}

/// What a web search did.
#[derive(Clone, Debug, PartialEq)]
pub enum WebSearchAction {
    Search { query: Option<String>, queries: Option<Vec<String>> },
    OpenPage { url: Option<String> },
    FindInPage { url: Option<String>, pattern: Option<String> },
    Other,
}

/// What `WebSearchAction` stands for.
#[verifier::ext_equal]
pub enum WebSearchActionView {
    Search { query: Option<Seq<char>>, queries: Option<Seq<Seq<char>>> },
    OpenPage { url: Option<Seq<char>> },
    FindInPage { url: Option<Seq<char>>, pattern: Option<Seq<char>> },
    Other,
}

impl DeepView for WebSearchAction {
    type V = WebSearchActionView;

    open spec fn deep_view(&self) -> WebSearchActionView {
        match self {
            WebSearchAction::Search { query, queries } => WebSearchActionView::Search {
                query: query.deep_view(),
                queries: queries.deep_view(),
            },
            WebSearchAction::OpenPage { url } => WebSearchActionView::OpenPage {
                url: url.deep_view(),
            },
            WebSearchAction::FindInPage { url, pattern } => WebSearchActionView::FindInPage {
                url: url.deep_view(),
                pattern: pattern.deep_view(),
            },
            WebSearchAction::Other => WebSearchActionView::Other,
        }
    }
}

impl Duplicate for WebSearchAction {
    fn duplicate(&self) -> (copy: Self) {
        let copy = match self {
            WebSearchAction::Search { query, queries } => WebSearchAction::Search {
                query: query.duplicate(),
                queries: queries.duplicate(),
            },
            WebSearchAction::OpenPage { url } => WebSearchAction::OpenPage {
                url: url.duplicate(),
            },
            WebSearchAction::FindInPage { url, pattern } => WebSearchAction::FindInPage {
                url: url.duplicate(),
                pattern: pattern.duplicate(),
            },
            WebSearchAction::Other => WebSearchAction::Other,
        };
        assert(copy.deep_view() =~= self.deep_view());
        copy
    }
}

/// What a command was recognized to do.
#[derive(Clone, Debug, PartialEq)]
pub enum ParsedCommand {
    Read { cmd: String, name: String, path: PathBuf },
    ListFiles { cmd: String, path: Option<String> },
    Search { cmd: String, query: Option<String>, path: Option<String> },
    Unknown { cmd: String },
}

/// What `ParsedCommand` stands for.
#[verifier::ext_equal]
pub enum ParsedCommandView {
    Read { cmd: Seq<char>, name: Seq<char>, path: PathBuf },
    ListFiles { cmd: Seq<char>, path: Option<Seq<char>> },
    Search { cmd: Seq<char>, query: Option<Seq<char>>, path: Option<Seq<char>> },
    Unknown { cmd: Seq<char> },
}

impl DeepView for ParsedCommand {
    type V = ParsedCommandView;

    open spec fn deep_view(&self) -> ParsedCommandView {
        match self {
            ParsedCommand::Read { cmd, name, path } => ParsedCommandView::Read {
                cmd: cmd@,
                name: name@,
                path: *path,
            },
            ParsedCommand::ListFiles { cmd, path } => ParsedCommandView::ListFiles {
                cmd: cmd@,
                path: path.deep_view(),
            },
            ParsedCommand::Search { cmd, query, path } => ParsedCommandView::Search {
                cmd: cmd@,
                query: query.deep_view(),
                path: path.deep_view(),
            },
            ParsedCommand::Unknown { cmd } => ParsedCommandView::Unknown {
                cmd: cmd@,
            },
        }
    }
}

impl Duplicate for ParsedCommand {
    fn duplicate(&self) -> (copy: Self) {
        let copy = match self {
            ParsedCommand::Read { cmd, name, path } => ParsedCommand::Read {
                cmd: cmd.clone(),
                name: name.clone(),
                path: path.clone(),
            },
            ParsedCommand::ListFiles { cmd, path } => ParsedCommand::ListFiles {
                cmd: cmd.clone(),
                path: path.duplicate(),
            },
            ParsedCommand::Search { cmd, query, path } => ParsedCommand::Search {
                cmd: cmd.clone(),
                query: query.duplicate(),
                path: path.duplicate(),
            },
            ParsedCommand::Unknown { cmd } => ParsedCommand::Unknown {
                cmd: cmd.clone(),
            },
        };
        assert(copy.deep_view() =~= self.deep_view());
        copy
    }
}

/// A part of what a dynamic tool gave back.
#[derive(Clone, Debug, PartialEq)]
pub enum DynamicToolCallOutputContentItem {
    InputText { text: String },
    InputImage { image_url: String },
}

/// What `DynamicToolCallOutputContentItem` stands for.
#[verifier::ext_equal]
pub enum DynamicToolCallOutputContentItemView {
    InputText { text: Seq<char> },
    InputImage { image_url: Seq<char> },
}

impl DeepView for DynamicToolCallOutputContentItem {
    type V = DynamicToolCallOutputContentItemView;

    open spec fn deep_view(&self) -> DynamicToolCallOutputContentItemView {
        match self {
            DynamicToolCallOutputContentItem::InputText { text } =>
                DynamicToolCallOutputContentItemView::InputText {
                text: text@,
            },
            DynamicToolCallOutputContentItem::InputImage { image_url } =>
                DynamicToolCallOutputContentItemView::InputImage {
                image_url: image_url@,
            },
        }
    }
}

impl Duplicate for DynamicToolCallOutputContentItem {
    fn duplicate(&self) -> (copy: Self) {
        let copy = match self {
            DynamicToolCallOutputContentItem::InputText { text } =>
                DynamicToolCallOutputContentItem::InputText {
                text: text.clone(),
            },
            DynamicToolCallOutputContentItem::InputImage { image_url } =>
                DynamicToolCallOutputContentItem::InputImage {
                image_url: image_url.clone(),
            },
        };
        assert(copy.deep_view() =~= self.deep_view());
        copy
    }
}

/// What a tool of an MCP server gave back.
#[derive(Clone, Debug, PartialEq)]
pub struct CallToolResult {
    pub content: Vec<JsonValue>,
    pub structured_content: Option<JsonValue>,
    pub is_error: Option<bool>,
    pub meta: Option<JsonValue>,
}

/// What `CallToolResult` stands for.
#[verifier::ext_equal]
pub struct CallToolResultView {
    pub content: Seq<JsonValueView>,
    pub structured_content: Option<JsonValueView>,
    pub is_error: Option<bool>,
    pub meta: Option<JsonValueView>,
}

impl DeepView for CallToolResult {
    type V = CallToolResultView;

    open spec fn deep_view(&self) -> CallToolResultView {
        CallToolResultView {
            content: self.content.deep_view(),
            structured_content: self.structured_content.deep_view(),
            is_error: self.is_error.deep_view(),
            meta: self.meta.deep_view(),
        }
    }
}

impl Duplicate for CallToolResult {
    fn duplicate(&self) -> (copy: Self) {
        let copy = CallToolResult {
            content: self.content.duplicate(),
            structured_content: self.structured_content.duplicate(),
            is_error: self.is_error,
            meta: self.meta.duplicate(),
        };
        assert(copy.deep_view() =~= self.deep_view());
        copy
    }
}

/// What is done to a file.
#[derive(Clone, Debug, PartialEq)]
pub enum FileChange {
    Add { content: String },
    Delete { content: String },
    Update { unified_diff: String, move_path: Option<PathBuf> },
}

} // verus!
