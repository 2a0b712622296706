//! The items of a turn.

use vstd::prelude::*;

use crate::protocol::{ContextCompactedEvent, EventMsg, EventMsgView};

pub mod activity;
pub mod collab;
pub mod collab_laws;
pub mod command;
pub mod event_laws;
pub mod hook_prompt;
pub mod message;
pub mod message_laws;
pub mod tool_call;

pub use activity::{
    ContextCompactionItem, ContextCompactionItemView, FileChangeItem, FileChangeItemView,
    ImageGenerationItem, ImageGenerationItemView, ImageViewItem, ImageViewItemView, SleepItem,
    SleepItemView, SubAgentActivityItem, SubAgentActivityItemView, WebSearchItem,
    WebSearchItemView,
};
pub use collab::{
    CollabAgentTool, CollabAgentToolCallItem, CollabAgentToolCallItemView,
    CollabAgentToolCallStatus,
};
pub use command::{CommandExecutionItem, CommandExecutionItemView, CommandExecutionStatus};
pub use hook_prompt::{
    build_hook_prompt_message, parse_hook_prompt_fragment, parse_hook_prompt_message,
    HookPromptFragment, HookPromptFragmentView, HookPromptItem, HookPromptItemView,
};
pub use message::{
    AgentMessageContent, AgentMessageContentView, AgentMessageItem, AgentMessageItemView, PlanItem,
    PlanItemView, ReasoningItem, ReasoningItemView, UserMessageItem, UserMessageItemView,
};
pub use tool_call::{
    DynamicToolCallItem, DynamicToolCallItemView, DynamicToolCallStatus, McpToolCallError,
    McpToolCallErrorView, McpToolCallItem, McpToolCallItemView, McpToolCallStatus,
};

verus! {

/// An item of a turn.
#[derive(Clone, Debug, PartialEq)]
pub enum TurnItem {
    UserMessage(UserMessageItem),
    HookPrompt(HookPromptItem),
    AgentMessage(AgentMessageItem),
    Plan(PlanItem),
    Reasoning(ReasoningItem),
    CommandExecution(CommandExecutionItem),
    DynamicToolCall(DynamicToolCallItem),
    CollabAgentToolCall(CollabAgentToolCallItem),
    SubAgentActivity(SubAgentActivityItem),
    WebSearch(WebSearchItem),
    ImageView(ImageViewItem),
    Sleep(SleepItem),
    ImageGeneration(ImageGenerationItem),
    FileChange(FileChangeItem),
    McpToolCall(McpToolCallItem),
    ContextCompaction(ContextCompactionItem),
}

/// What `TurnItem` stands for.
#[verifier::ext_equal]
pub enum TurnItemView {
    UserMessage(UserMessageItemView),
    HookPrompt(HookPromptItemView),
    AgentMessage(AgentMessageItemView),
    Plan(PlanItemView),
    Reasoning(ReasoningItemView),
    CommandExecution(CommandExecutionItemView),
    DynamicToolCall(DynamicToolCallItemView),
    CollabAgentToolCall(CollabAgentToolCallItemView),
    SubAgentActivity(SubAgentActivityItemView),
    WebSearch(WebSearchItemView),
    ImageView(ImageViewItemView),
    Sleep(SleepItemView),
    ImageGeneration(ImageGenerationItemView),
    FileChange(FileChangeItemView),
    McpToolCall(McpToolCallItemView),
    ContextCompaction(ContextCompactionItemView),
}

impl DeepView for TurnItem {
    type V = TurnItemView;

    open spec fn deep_view(&self) -> TurnItemView {
        match self {
            TurnItem::UserMessage(value) => TurnItemView::UserMessage(value.deep_view()),
            TurnItem::HookPrompt(value) => TurnItemView::HookPrompt(value.deep_view()),
            TurnItem::AgentMessage(value) => TurnItemView::AgentMessage(value.deep_view()),
            TurnItem::Plan(value) => TurnItemView::Plan(value.deep_view()),
            TurnItem::Reasoning(value) => TurnItemView::Reasoning(value.deep_view()),
            TurnItem::CommandExecution(value) => TurnItemView::CommandExecution(value.deep_view()),
            TurnItem::DynamicToolCall(value) => TurnItemView::DynamicToolCall(value.deep_view()),
            TurnItem::CollabAgentToolCall(value) =>
                TurnItemView::CollabAgentToolCall(value.deep_view()),
            TurnItem::SubAgentActivity(value) => TurnItemView::SubAgentActivity(value.deep_view()),
            TurnItem::WebSearch(value) => TurnItemView::WebSearch(value.deep_view()),
            TurnItem::ImageView(value) => TurnItemView::ImageView(value.deep_view()),
            TurnItem::Sleep(value) => TurnItemView::Sleep(value.deep_view()),
            TurnItem::ImageGeneration(value) => TurnItemView::ImageGeneration(value.deep_view()),
            TurnItem::FileChange(value) => TurnItemView::FileChange(value.deep_view()),
            TurnItem::McpToolCall(value) => TurnItemView::McpToolCall(value.deep_view()),
            TurnItem::ContextCompaction(value) =>
                TurnItemView::ContextCompaction(value.deep_view()),
        }
    }
}

impl TurnItemView {
    /// The identity of the item.
    pub open spec fn id(self) -> Seq<char> {
        match self {
            TurnItemView::UserMessage(item) => item.id,
            TurnItemView::HookPrompt(item) => item.id,
            TurnItemView::AgentMessage(item) => item.id,
            TurnItemView::Plan(item) => item.id,
            TurnItemView::Reasoning(item) => item.id,
            TurnItemView::CommandExecution(item) => item.id,
            TurnItemView::DynamicToolCall(item) => item.id,
            TurnItemView::CollabAgentToolCall(item) => item.id,
            TurnItemView::SubAgentActivity(item) => item.id,
            TurnItemView::WebSearch(item) => item.id,
            TurnItemView::ImageView(item) => item.id,
            TurnItemView::Sleep(item) => item.id,
            TurnItemView::ImageGeneration(item) => item.id,
            TurnItemView::FileChange(item) => item.id,
            TurnItemView::McpToolCall(item) => item.id,
            TurnItemView::ContextCompaction(item) => item.id,
        }
    }

    /// The events that report the item once it is complete. Commands, calls of dynamic tools and of
    /// collaboration tools, and the activity of sub-agents are reported by events of their own
    /// while they happen; hook prompts, plans and pauses are not reported.
    pub open spec fn legacy_events(self, show_raw: bool) -> Seq<EventMsgView> {
        match self {
            TurnItemView::UserMessage(item) => seq![item.legacy_event()],
            TurnItemView::AgentMessage(item) => item.legacy_events(),
            TurnItemView::Reasoning(item) => item.legacy_events(show_raw),
            TurnItemView::WebSearch(item) => seq![item.legacy_event()],
            TurnItemView::ImageView(item) => seq![item.legacy_event()],
            TurnItemView::ImageGeneration(item) => seq![item.legacy_event()],
            TurnItemView::FileChange(item) => at_most_one(item.legacy_end_event(seq![])),
            TurnItemView::McpToolCall(item) => at_most_one(item.legacy_end_event()),
            TurnItemView::ContextCompaction(_) => seq![
                EventMsgView::ContextCompacted(ContextCompactedEvent {  }),
            ],
            TurnItemView::HookPrompt(_) => seq![],
            TurnItemView::Plan(_) => seq![],
            TurnItemView::CommandExecution(_) => seq![],
            TurnItemView::DynamicToolCall(_) => seq![],
            TurnItemView::CollabAgentToolCall(_) => seq![],
            TurnItemView::SubAgentActivity(_) => seq![],
            TurnItemView::Sleep(_) => seq![],
        }
    }
}

/// The event, if there is one, as a sequence.
pub open spec fn at_most_one(event: Option<EventMsgView>) -> Seq<EventMsgView> {
    match event {
        Some(found) => seq![found],
        None => seq![],
    }
}

fn one_event(event: EventMsg) -> (events: Vec<EventMsg>)
    ensures
        events.deep_view() == seq![event.deep_view()],
{
    let events = vec![event];
    assert(events.deep_view() =~= seq![event.deep_view()]);
    events
}

fn no_events() -> (events: Vec<EventMsg>)
    ensures
        events.deep_view() == Seq::<EventMsgView>::empty(),
{
    let events: Vec<EventMsg> = Vec::new();
    assert(events.deep_view() =~= Seq::<EventMsgView>::empty());
    events
}

fn optional_event(event: Option<EventMsg>) -> (events: Vec<EventMsg>)
    ensures
        events.deep_view() == at_most_one(event.deep_view()),
{
    match event {
        Some(found) => one_event(found),
        None => no_events(),
    }
}

impl TurnItem {
    /// Returns the identity of the item.
    pub fn id(&self) -> (id: String)
        ensures
            id@ == self.deep_view().id(),
    {
        match self {
            TurnItem::UserMessage(item) => item.id.clone(),
            TurnItem::HookPrompt(item) => item.id.clone(),
            TurnItem::AgentMessage(item) => item.id.clone(),
            TurnItem::Plan(item) => item.id.clone(),
            TurnItem::Reasoning(item) => item.id.clone(),
            TurnItem::CommandExecution(item) => item.id.clone(),
            TurnItem::DynamicToolCall(item) => item.id.clone(),
            TurnItem::CollabAgentToolCall(item) => item.id.clone(),
            TurnItem::SubAgentActivity(item) => item.id.clone(),
            TurnItem::WebSearch(item) => item.id.clone(),
            TurnItem::ImageView(item) => item.id.clone(),
            TurnItem::Sleep(item) => item.id.clone(),
            TurnItem::ImageGeneration(item) => item.id.clone(),
            TurnItem::FileChange(item) => item.id.clone(),
            TurnItem::McpToolCall(item) => item.id.clone(),
            TurnItem::ContextCompaction(item) => item.id.clone(),
        }
    }

    /// Makes the events that report the item once it is complete.
    pub fn as_legacy_events(&self, show_raw_agent_reasoning: bool) -> (events: Vec<EventMsg>)
        requires
            self matches TurnItem::UserMessage(item) ==> message::ranges_fit(
                item.deep_view().content,
            ),
        ensures
            events.deep_view() == self.deep_view().legacy_events(show_raw_agent_reasoning),
    {
        match self {
            TurnItem::UserMessage(item) => one_event(item.as_legacy_event()),
            TurnItem::HookPrompt(_) => no_events(),
            TurnItem::AgentMessage(item) => item.as_legacy_events(),
            TurnItem::Plan(_) => no_events(),
            TurnItem::CommandExecution(_) => no_events(),
            TurnItem::DynamicToolCall(_) => no_events(),
            TurnItem::CollabAgentToolCall(_) => no_events(),
            TurnItem::SubAgentActivity(_) => no_events(),
            TurnItem::WebSearch(item) => one_event(item.as_legacy_event()),
            TurnItem::ImageView(item) => one_event(item.as_legacy_event()),
            TurnItem::Sleep(_) => no_events(),
            TurnItem::ImageGeneration(item) => one_event(item.as_legacy_event()),
            TurnItem::FileChange(item) => {
                let turn_id = String::new();
                assert(turn_id@ =~= seq![]);
                optional_event(item.as_legacy_end_event(turn_id))
            },
            TurnItem::McpToolCall(item) => optional_event(item.as_legacy_end_event()),
            TurnItem::Reasoning(item) => item.as_legacy_events(show_raw_agent_reasoning),
            TurnItem::ContextCompaction(item) => one_event(item.as_legacy_event()),
        }
    }
}

} // verus!
