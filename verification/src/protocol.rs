//! The events of a session.

use std::collections::HashMap;
use std::path::PathBuf;

use vstd::prelude::*;

use crate::duplicate::Duplicate;
use crate::duration::Duration;
use crate::json::{JsonValue, JsonValueView};
use crate::models::{
    CallToolResult, CallToolResultView, DynamicToolCallOutputContentItem,
    DynamicToolCallOutputContentItemView, FileChange, ImageDetail, MemoryCitation,
    MemoryCitationView, MessagePhase, ParsedCommand, ParsedCommandView, ReasoningEffort, ThreadId,
    WebSearchAction, WebSearchActionView,
};
use crate::paths::{AbsolutePathBuf, AgentPath, PathUri};
use crate::user_input::{TextElement, TextElementView};

verus! {

/// Who had a command run.
#[derive(Clone, Copy, Debug, PartialEq, Eq, Structural)]
pub enum ExecCommandSource {
    Agent,
    UserShell,
    UnifiedExecStartup,
    UnifiedExecInteraction,
}

/// How a command ended.
#[derive(Clone, Copy, Debug, PartialEq, Eq, Structural)]
pub enum ExecCommandStatus {
    Completed,
    Failed,
    Declined,
}

/// How applying a patch ended.
#[derive(Clone, Copy, Debug, PartialEq, Eq, Structural)]
pub enum PatchApplyStatus {
    Completed,
    Failed,
    Declined,
}

impl DeepView for PatchApplyStatus {
    type V = PatchApplyStatus;

    open spec fn deep_view(&self) -> PatchApplyStatus {
        *self
    }
}

/// What happened to a sub-agent.
#[derive(Clone, Copy, Debug, PartialEq, Eq, Structural)]
pub enum SubAgentActivityKind {
    Started,
    Interacted,
    Interrupted,
}

/// What an agent is doing, or came to.
#[derive(Clone, Debug, PartialEq)]
pub enum AgentStatus {
    PendingInit,
    Running,
    Interrupted,
    /// The agent completed its turn, with its last message.
    Completed(Option<String>),
    Errored(String),
    Shutdown,
    NotFound,
}

/// What `AgentStatus` stands for.
#[verifier::ext_equal]
pub enum AgentStatusView {
    PendingInit,
    Running,
    Interrupted,
    Completed(Option<Seq<char>>),
    Errored(Seq<char>),
    Shutdown,
    NotFound,
}

impl DeepView for AgentStatus {
    type V = AgentStatusView;

    open spec fn deep_view(&self) -> AgentStatusView {
        match self {
            AgentStatus::PendingInit => AgentStatusView::PendingInit,
            AgentStatus::Running => AgentStatusView::Running,
            AgentStatus::Interrupted => AgentStatusView::Interrupted,
            AgentStatus::Completed(value) => AgentStatusView::Completed(value.deep_view()),
            AgentStatus::Errored(value) => AgentStatusView::Errored(value@),
            AgentStatus::Shutdown => AgentStatusView::Shutdown,
            AgentStatus::NotFound => AgentStatusView::NotFound,
        }
    }
}

impl Duplicate for AgentStatus {
    fn duplicate(&self) -> (copy: Self) {
        let copy = match self {
            AgentStatus::PendingInit => AgentStatus::PendingInit,
            AgentStatus::Running => AgentStatus::Running,
            AgentStatus::Interrupted => AgentStatus::Interrupted,
            AgentStatus::Completed(value) => AgentStatus::Completed(value.duplicate()),
            AgentStatus::Errored(value) => AgentStatus::Errored(value.clone()),
            AgentStatus::Shutdown => AgentStatus::Shutdown,
            AgentStatus::NotFound => AgentStatus::NotFound,
        };
        assert(copy.deep_view() =~= self.deep_view());
        copy
    }
}

/// An agent that takes part in a collaboration.
#[derive(Clone, Debug, PartialEq)]
pub struct CollabAgentRef {
    pub thread_id: ThreadId,
    pub agent_nickname: Option<String>,
    pub agent_role: Option<String>,
}

/// What `CollabAgentRef` stands for.
#[verifier::ext_equal]
pub struct CollabAgentRefView {
    pub thread_id: ThreadId,
    pub agent_nickname: Option<Seq<char>>,
    pub agent_role: Option<Seq<char>>,
}

impl DeepView for CollabAgentRef {
    type V = CollabAgentRefView;

    open spec fn deep_view(&self) -> CollabAgentRefView {
        CollabAgentRefView {
            thread_id: self.thread_id,
            agent_nickname: self.agent_nickname.deep_view(),
            agent_role: self.agent_role.deep_view(),
        }
    }
}

impl Duplicate for CollabAgentRef {
    fn duplicate(&self) -> (copy: Self) {
        let copy = CollabAgentRef {
            thread_id: self.thread_id,
            agent_nickname: self.agent_nickname.duplicate(),
            agent_role: self.agent_role.duplicate(),
        };
        assert(copy.deep_view() =~= self.deep_view());
        copy
    }
}

/// An agent that takes part in a collaboration, and its status.
#[derive(Clone, Debug, PartialEq)]
pub struct CollabAgentStatusEntry {
    pub thread_id: ThreadId,
    pub agent_nickname: Option<String>,
    pub agent_role: Option<String>,
    pub status: AgentStatus,
}

/// What `CollabAgentStatusEntry` stands for.
#[verifier::ext_equal]
pub struct CollabAgentStatusEntryView {
    pub thread_id: ThreadId,
    pub agent_nickname: Option<Seq<char>>,
    pub agent_role: Option<Seq<char>>,
    pub status: AgentStatusView,
}

impl DeepView for CollabAgentStatusEntry {
    type V = CollabAgentStatusEntryView;

    open spec fn deep_view(&self) -> CollabAgentStatusEntryView {
        CollabAgentStatusEntryView {
            thread_id: self.thread_id,
            agent_nickname: self.agent_nickname.deep_view(),
            agent_role: self.agent_role.deep_view(),
            status: self.status.deep_view(),
        }
    }
}

/// A message of the user.
#[derive(Clone, Debug, PartialEq)]
pub struct UserMessageEvent {
    pub client_id: Option<String>,
    pub message: String,
    pub images: Option<Vec<String>>,
    pub image_details: Vec<Option<ImageDetail>>,
    pub local_images: Vec<PathBuf>,
    pub local_image_details: Vec<Option<ImageDetail>>,
    pub text_elements: Vec<TextElement>,
}

/// What `UserMessageEvent` stands for.
#[verifier::ext_equal]
pub struct UserMessageEventView {
    pub client_id: Option<Seq<char>>,
    pub message: Seq<char>,
    pub images: Option<Seq<Seq<char>>>,
    pub image_details: Seq<Option<ImageDetail>>,
    pub local_images: Seq<PathBuf>,
    pub local_image_details: Seq<Option<ImageDetail>>,
    pub text_elements: Seq<TextElementView>,
}

impl DeepView for UserMessageEvent {
    type V = UserMessageEventView;

    open spec fn deep_view(&self) -> UserMessageEventView {
        UserMessageEventView {
            client_id: self.client_id.deep_view(),
            message: self.message@,
            images: self.images.deep_view(),
            image_details: self.image_details.deep_view(),
            local_images: self.local_images@,
            local_image_details: self.local_image_details.deep_view(),
            text_elements: self.text_elements.deep_view(),
        }
    }
}

/// A message of the agent.
#[derive(Clone, Debug, PartialEq)]
pub struct AgentMessageEvent {
    pub message: String,
    pub phase: Option<MessagePhase>,
    pub memory_citation: Option<MemoryCitation>,
}

/// What `AgentMessageEvent` stands for.
#[verifier::ext_equal]
pub struct AgentMessageEventView {
    pub message: Seq<char>,
    pub phase: Option<MessagePhase>,
    pub memory_citation: Option<MemoryCitationView>,
}

impl DeepView for AgentMessageEvent {
    type V = AgentMessageEventView;

    open spec fn deep_view(&self) -> AgentMessageEventView {
        AgentMessageEventView {
            message: self.message@,
            phase: self.phase.deep_view(),
            memory_citation: self.memory_citation.deep_view(),
        }
    }
}

/// A summary of the agent's reasoning.
#[derive(Clone, Debug, PartialEq)]
pub struct AgentReasoningEvent {
    pub text: String,
}

/// What `AgentReasoningEvent` stands for.
#[verifier::ext_equal]
pub struct AgentReasoningEventView {
    pub text: Seq<char>,
}

impl DeepView for AgentReasoningEvent {
    type V = AgentReasoningEventView;

    open spec fn deep_view(&self) -> AgentReasoningEventView {
        AgentReasoningEventView {
            text: self.text@,
        }
    }
}

/// The agent's reasoning itself.
#[derive(Clone, Debug, PartialEq)]
pub struct AgentReasoningRawContentEvent {
    pub text: String,
}

/// What `AgentReasoningRawContentEvent` stands for.
#[verifier::ext_equal]
pub struct AgentReasoningRawContentEventView {
    pub text: Seq<char>,
}

impl DeepView for AgentReasoningRawContentEvent {
    type V = AgentReasoningRawContentEventView;

    open spec fn deep_view(&self) -> AgentReasoningRawContentEventView {
        AgentReasoningRawContentEventView {
            text: self.text@,
        }
    }
}

/// A command begins.
#[derive(Clone, Debug, PartialEq)]
pub struct ExecCommandBeginEvent {
    pub call_id: String,
    pub process_id: Option<String>,
    pub turn_id: String,
    pub started_at_ms: i64,
    pub command: Vec<String>,
    pub cwd: PathUri,
    pub parsed_cmd: Vec<ParsedCommand>,
    pub source: ExecCommandSource,
    pub interaction_input: Option<String>,
}

/// What `ExecCommandBeginEvent` stands for.
#[verifier::ext_equal]
pub struct ExecCommandBeginEventView {
    pub call_id: Seq<char>,
    pub process_id: Option<Seq<char>>,
    pub turn_id: Seq<char>,
    pub started_at_ms: i64,
    pub command: Seq<Seq<char>>,
    pub cwd: Seq<char>,
    pub parsed_cmd: Seq<ParsedCommandView>,
    pub source: ExecCommandSource,
    pub interaction_input: Option<Seq<char>>,
}

impl DeepView for ExecCommandBeginEvent {
    type V = ExecCommandBeginEventView;

    open spec fn deep_view(&self) -> ExecCommandBeginEventView {
        ExecCommandBeginEventView {
            call_id: self.call_id@,
            process_id: self.process_id.deep_view(),
            turn_id: self.turn_id@,
            started_at_ms: self.started_at_ms,
            command: self.command.deep_view(),
            cwd: self.cwd.deep_view(),
            parsed_cmd: self.parsed_cmd.deep_view(),
            source: self.source,
            interaction_input: self.interaction_input.deep_view(),
        }
    }
}

/// A command ended.
#[derive(Clone, Debug, PartialEq)]
pub struct ExecCommandEndEvent {
    pub call_id: String,
    pub process_id: Option<String>,
    pub turn_id: String,
    pub completed_at_ms: i64,
    pub command: Vec<String>,
    pub cwd: PathUri,
    pub parsed_cmd: Vec<ParsedCommand>,
    pub source: ExecCommandSource,
    pub interaction_input: Option<String>,
    pub stdout: String,
    pub stderr: String,
    pub aggregated_output: String,
    pub exit_code: i32,
    pub duration: Duration,
    pub formatted_output: String,
    pub status: ExecCommandStatus,
}

/// What `ExecCommandEndEvent` stands for.
#[verifier::ext_equal]
pub struct ExecCommandEndEventView {
    pub call_id: Seq<char>,
    pub process_id: Option<Seq<char>>,
    pub turn_id: Seq<char>,
    pub completed_at_ms: i64,
    pub command: Seq<Seq<char>>,
    pub cwd: Seq<char>,
    pub parsed_cmd: Seq<ParsedCommandView>,
    pub source: ExecCommandSource,
    pub interaction_input: Option<Seq<char>>,
    pub stdout: Seq<char>,
    pub stderr: Seq<char>,
    pub aggregated_output: Seq<char>,
    pub exit_code: i32,
    pub duration: nat,
    pub formatted_output: Seq<char>,
    pub status: ExecCommandStatus,
}

impl DeepView for ExecCommandEndEvent {
    type V = ExecCommandEndEventView;

    open spec fn deep_view(&self) -> ExecCommandEndEventView {
        ExecCommandEndEventView {
            call_id: self.call_id@,
            process_id: self.process_id.deep_view(),
            turn_id: self.turn_id@,
            completed_at_ms: self.completed_at_ms,
            command: self.command.deep_view(),
            cwd: self.cwd.deep_view(),
            parsed_cmd: self.parsed_cmd.deep_view(),
            source: self.source,
            interaction_input: self.interaction_input.deep_view(),
            stdout: self.stdout@,
            stderr: self.stderr@,
            aggregated_output: self.aggregated_output@,
            exit_code: self.exit_code,
            duration: self.duration@,
            formatted_output: self.formatted_output@,
            status: self.status,
        }
    }
}

/// A dynamic tool is called.
#[derive(Clone, Debug, PartialEq)]
pub struct DynamicToolCallRequest {
    pub call_id: String,
    pub turn_id: String,
    pub started_at_ms: i64,
    pub namespace: Option<String>,
    pub tool: String,
    pub arguments: JsonValue,
}

/// What `DynamicToolCallRequest` stands for.
#[verifier::ext_equal]
pub struct DynamicToolCallRequestView {
    pub call_id: Seq<char>,
    pub turn_id: Seq<char>,
    pub started_at_ms: i64,
    pub namespace: Option<Seq<char>>,
    pub tool: Seq<char>,
    pub arguments: JsonValueView,
}

impl DeepView for DynamicToolCallRequest {
    type V = DynamicToolCallRequestView;

    open spec fn deep_view(&self) -> DynamicToolCallRequestView {
        DynamicToolCallRequestView {
            call_id: self.call_id@,
            turn_id: self.turn_id@,
            started_at_ms: self.started_at_ms,
            namespace: self.namespace.deep_view(),
            tool: self.tool@,
            arguments: self.arguments.deep_view(),
        }
    }
}

/// A dynamic tool gave something back.
#[derive(Clone, Debug, PartialEq)]
pub struct DynamicToolCallResponseEvent {
    pub call_id: String,
    pub turn_id: String,
    pub completed_at_ms: i64,
    pub namespace: Option<String>,
    pub tool: String,
    pub arguments: JsonValue,
    pub content_items: Vec<DynamicToolCallOutputContentItem>,
    pub success: bool,
    pub error: Option<String>,
    pub duration: Duration,
}

/// What `DynamicToolCallResponseEvent` stands for.
#[verifier::ext_equal]
pub struct DynamicToolCallResponseEventView {
    pub call_id: Seq<char>,
    pub turn_id: Seq<char>,
    pub completed_at_ms: i64,
    pub namespace: Option<Seq<char>>,
    pub tool: Seq<char>,
    pub arguments: JsonValueView,
    pub content_items: Seq<DynamicToolCallOutputContentItemView>,
    pub success: bool,
    pub error: Option<Seq<char>>,
    pub duration: nat,
}

impl DeepView for DynamicToolCallResponseEvent {
    type V = DynamicToolCallResponseEventView;

    open spec fn deep_view(&self) -> DynamicToolCallResponseEventView {
        DynamicToolCallResponseEventView {
            call_id: self.call_id@,
            turn_id: self.turn_id@,
            completed_at_ms: self.completed_at_ms,
            namespace: self.namespace.deep_view(),
            tool: self.tool@,
            arguments: self.arguments.deep_view(),
            content_items: self.content_items.deep_view(),
            success: self.success,
            error: self.error.deep_view(),
            duration: self.duration@,
        }
    }
}

/// An agent is about to be spawned.
#[derive(Clone, Debug, PartialEq)]
pub struct CollabAgentSpawnBeginEvent {
    pub call_id: String,
    pub started_at_ms: i64,
    pub sender_thread_id: ThreadId,
    pub prompt: String,
    pub model: String,
    pub reasoning_effort: ReasoningEffort,
}

/// What `CollabAgentSpawnBeginEvent` stands for.
#[verifier::ext_equal]
pub struct CollabAgentSpawnBeginEventView {
    pub call_id: Seq<char>,
    pub started_at_ms: i64,
    pub sender_thread_id: ThreadId,
    pub prompt: Seq<char>,
    pub model: Seq<char>,
    pub reasoning_effort: ReasoningEffort,
}

impl DeepView for CollabAgentSpawnBeginEvent {
    type V = CollabAgentSpawnBeginEventView;

    open spec fn deep_view(&self) -> CollabAgentSpawnBeginEventView {
        CollabAgentSpawnBeginEventView {
            call_id: self.call_id@,
            started_at_ms: self.started_at_ms,
            sender_thread_id: self.sender_thread_id,
            prompt: self.prompt@,
            model: self.model@,
            reasoning_effort: self.reasoning_effort,
        }
    }
}

/// An agent was spawned, or not.
#[derive(Clone, Debug, PartialEq)]
pub struct CollabAgentSpawnEndEvent {
    pub call_id: String,
    pub completed_at_ms: i64,
    pub sender_thread_id: ThreadId,
    pub new_thread_id: Option<ThreadId>,
    pub new_agent_nickname: Option<String>,
    pub new_agent_role: Option<String>,
    pub prompt: String,
    pub model: String,
    pub reasoning_effort: ReasoningEffort,
    pub status: AgentStatus,
}

/// What `CollabAgentSpawnEndEvent` stands for.
#[verifier::ext_equal]
pub struct CollabAgentSpawnEndEventView {
    pub call_id: Seq<char>,
    pub completed_at_ms: i64,
    pub sender_thread_id: ThreadId,
    pub new_thread_id: Option<ThreadId>,
    pub new_agent_nickname: Option<Seq<char>>,
    pub new_agent_role: Option<Seq<char>>,
    pub prompt: Seq<char>,
    pub model: Seq<char>,
    pub reasoning_effort: ReasoningEffort,
    pub status: AgentStatusView,
}

impl DeepView for CollabAgentSpawnEndEvent {
    type V = CollabAgentSpawnEndEventView;

    open spec fn deep_view(&self) -> CollabAgentSpawnEndEventView {
        CollabAgentSpawnEndEventView {
            call_id: self.call_id@,
            completed_at_ms: self.completed_at_ms,
            sender_thread_id: self.sender_thread_id,
            new_thread_id: self.new_thread_id.deep_view(),
            new_agent_nickname: self.new_agent_nickname.deep_view(),
            new_agent_role: self.new_agent_role.deep_view(),
            prompt: self.prompt@,
            model: self.model@,
            reasoning_effort: self.reasoning_effort,
            status: self.status.deep_view(),
        }
    }
}

/// Input is about to be sent to an agent.
#[derive(Clone, Debug, PartialEq)]
pub struct CollabAgentInteractionBeginEvent {
    pub call_id: String,
    pub started_at_ms: i64,
    pub sender_thread_id: ThreadId,
    pub receiver_thread_id: ThreadId,
    pub prompt: String,
}

/// What `CollabAgentInteractionBeginEvent` stands for.
#[verifier::ext_equal]
pub struct CollabAgentInteractionBeginEventView {
    pub call_id: Seq<char>,
    pub started_at_ms: i64,
    pub sender_thread_id: ThreadId,
    pub receiver_thread_id: ThreadId,
    pub prompt: Seq<char>,
}

impl DeepView for CollabAgentInteractionBeginEvent {
    type V = CollabAgentInteractionBeginEventView;

    open spec fn deep_view(&self) -> CollabAgentInteractionBeginEventView {
        CollabAgentInteractionBeginEventView {
            call_id: self.call_id@,
            started_at_ms: self.started_at_ms,
            sender_thread_id: self.sender_thread_id,
            receiver_thread_id: self.receiver_thread_id,
            prompt: self.prompt@,
        }
    }
}

/// Input was sent to an agent.
#[derive(Clone, Debug, PartialEq)]
pub struct CollabAgentInteractionEndEvent {
    pub call_id: String,
    pub completed_at_ms: i64,
    pub sender_thread_id: ThreadId,
    pub receiver_thread_id: ThreadId,
    pub receiver_agent_nickname: Option<String>,
    pub receiver_agent_role: Option<String>,
    pub prompt: String,
    pub status: AgentStatus,
}

/// What `CollabAgentInteractionEndEvent` stands for.
#[verifier::ext_equal]
pub struct CollabAgentInteractionEndEventView {
    pub call_id: Seq<char>,
    pub completed_at_ms: i64,
    pub sender_thread_id: ThreadId,
    pub receiver_thread_id: ThreadId,
    pub receiver_agent_nickname: Option<Seq<char>>,
    pub receiver_agent_role: Option<Seq<char>>,
    pub prompt: Seq<char>,
    pub status: AgentStatusView,
}

impl DeepView for CollabAgentInteractionEndEvent {
    type V = CollabAgentInteractionEndEventView;

    open spec fn deep_view(&self) -> CollabAgentInteractionEndEventView {
        CollabAgentInteractionEndEventView {
            call_id: self.call_id@,
            completed_at_ms: self.completed_at_ms,
            sender_thread_id: self.sender_thread_id,
            receiver_thread_id: self.receiver_thread_id,
            receiver_agent_nickname: self.receiver_agent_nickname.deep_view(),
            receiver_agent_role: self.receiver_agent_role.deep_view(),
            prompt: self.prompt@,
            status: self.status.deep_view(),
        }
    }
}

/// A wait for agents begins.
#[derive(Clone, Debug, PartialEq)]
pub struct CollabWaitingBeginEvent {
    pub started_at_ms: i64,
    pub sender_thread_id: ThreadId,
    pub receiver_thread_ids: Vec<ThreadId>,
    pub receiver_agents: Vec<CollabAgentRef>,
    pub call_id: String,
}

/// What `CollabWaitingBeginEvent` stands for.
#[verifier::ext_equal]
pub struct CollabWaitingBeginEventView {
    pub started_at_ms: i64,
    pub sender_thread_id: ThreadId,
    pub receiver_thread_ids: Seq<ThreadId>,
    pub receiver_agents: Seq<CollabAgentRefView>,
    pub call_id: Seq<char>,
}

impl DeepView for CollabWaitingBeginEvent {
    type V = CollabWaitingBeginEventView;

    open spec fn deep_view(&self) -> CollabWaitingBeginEventView {
        CollabWaitingBeginEventView {
            started_at_ms: self.started_at_ms,
            sender_thread_id: self.sender_thread_id,
            receiver_thread_ids: self.receiver_thread_ids@,
            receiver_agents: self.receiver_agents.deep_view(),
            call_id: self.call_id@,
        }
    }
}

/// A wait for agents ended.
#[derive(Clone, Debug, PartialEq)]
pub struct CollabWaitingEndEvent {
    pub sender_thread_id: ThreadId,
    pub call_id: String,
    pub completed_at_ms: i64,
    pub agent_statuses: Vec<CollabAgentStatusEntry>,
    pub statuses: HashMap<ThreadId, AgentStatus>,
}

/// What `CollabWaitingEndEvent` stands for.
#[verifier::ext_equal]
pub struct CollabWaitingEndEventView {
    pub sender_thread_id: ThreadId,
    pub call_id: Seq<char>,
    pub completed_at_ms: i64,
    pub agent_statuses: Seq<CollabAgentStatusEntryView>,
    pub statuses: Map<ThreadId, AgentStatusView>,
}

impl DeepView for CollabWaitingEndEvent {
    type V = CollabWaitingEndEventView;

    open spec fn deep_view(&self) -> CollabWaitingEndEventView {
        CollabWaitingEndEventView {
            sender_thread_id: self.sender_thread_id,
            call_id: self.call_id@,
            completed_at_ms: self.completed_at_ms,
            agent_statuses: self.agent_statuses.deep_view(),
            statuses: self.statuses@.map_values(|value: AgentStatus| value.deep_view()),
        }
    }
}

/// An agent is about to be closed.
#[derive(Clone, Debug, PartialEq)]
pub struct CollabCloseBeginEvent {
    pub call_id: String,
    pub started_at_ms: i64,
    pub sender_thread_id: ThreadId,
    pub receiver_thread_id: ThreadId,
}

/// What `CollabCloseBeginEvent` stands for.
#[verifier::ext_equal]
pub struct CollabCloseBeginEventView {
    pub call_id: Seq<char>,
    pub started_at_ms: i64,
    pub sender_thread_id: ThreadId,
    pub receiver_thread_id: ThreadId,
}

impl DeepView for CollabCloseBeginEvent {
    type V = CollabCloseBeginEventView;

    open spec fn deep_view(&self) -> CollabCloseBeginEventView {
        CollabCloseBeginEventView {
            call_id: self.call_id@,
            started_at_ms: self.started_at_ms,
            sender_thread_id: self.sender_thread_id,
            receiver_thread_id: self.receiver_thread_id,
        }
    }
}

/// An agent was closed.
#[derive(Clone, Debug, PartialEq)]
pub struct CollabCloseEndEvent {
    pub call_id: String,
    pub completed_at_ms: i64,
    pub sender_thread_id: ThreadId,
    pub receiver_thread_id: ThreadId,
    pub receiver_agent_nickname: Option<String>,
    pub receiver_agent_role: Option<String>,
    pub status: AgentStatus,
}

/// What `CollabCloseEndEvent` stands for.
#[verifier::ext_equal]
pub struct CollabCloseEndEventView {
    pub call_id: Seq<char>,
    pub completed_at_ms: i64,
    pub sender_thread_id: ThreadId,
    pub receiver_thread_id: ThreadId,
    pub receiver_agent_nickname: Option<Seq<char>>,
    pub receiver_agent_role: Option<Seq<char>>,
    pub status: AgentStatusView,
}

impl DeepView for CollabCloseEndEvent {
    type V = CollabCloseEndEventView;

    open spec fn deep_view(&self) -> CollabCloseEndEventView {
        CollabCloseEndEventView {
            call_id: self.call_id@,
            completed_at_ms: self.completed_at_ms,
            sender_thread_id: self.sender_thread_id,
            receiver_thread_id: self.receiver_thread_id,
            receiver_agent_nickname: self.receiver_agent_nickname.deep_view(),
            receiver_agent_role: self.receiver_agent_role.deep_view(),
            status: self.status.deep_view(),
        }
    }
}

/// An agent is about to be resumed.
#[derive(Clone, Debug, PartialEq)]
pub struct CollabResumeBeginEvent {
    pub call_id: String,
    pub started_at_ms: i64,
    pub sender_thread_id: ThreadId,
    pub receiver_thread_id: ThreadId,
    pub receiver_agent_nickname: Option<String>,
    pub receiver_agent_role: Option<String>,
}

/// What `CollabResumeBeginEvent` stands for.
#[verifier::ext_equal]
pub struct CollabResumeBeginEventView {
    pub call_id: Seq<char>,
    pub started_at_ms: i64,
    pub sender_thread_id: ThreadId,
    pub receiver_thread_id: ThreadId,
    pub receiver_agent_nickname: Option<Seq<char>>,
    pub receiver_agent_role: Option<Seq<char>>,
}

impl DeepView for CollabResumeBeginEvent {
    type V = CollabResumeBeginEventView;

    open spec fn deep_view(&self) -> CollabResumeBeginEventView {
        CollabResumeBeginEventView {
            call_id: self.call_id@,
            started_at_ms: self.started_at_ms,
            sender_thread_id: self.sender_thread_id,
            receiver_thread_id: self.receiver_thread_id,
            receiver_agent_nickname: self.receiver_agent_nickname.deep_view(),
            receiver_agent_role: self.receiver_agent_role.deep_view(),
        }
    }
}

/// An agent was resumed.
#[derive(Clone, Debug, PartialEq)]
pub struct CollabResumeEndEvent {
    pub call_id: String,
    pub completed_at_ms: i64,
    pub sender_thread_id: ThreadId,
    pub receiver_thread_id: ThreadId,
    pub receiver_agent_nickname: Option<String>,
    pub receiver_agent_role: Option<String>,
    pub status: AgentStatus,
}

/// What `CollabResumeEndEvent` stands for.
#[verifier::ext_equal]
pub struct CollabResumeEndEventView {
    pub call_id: Seq<char>,
    pub completed_at_ms: i64,
    pub sender_thread_id: ThreadId,
    pub receiver_thread_id: ThreadId,
    pub receiver_agent_nickname: Option<Seq<char>>,
    pub receiver_agent_role: Option<Seq<char>>,
    pub status: AgentStatusView,
}

impl DeepView for CollabResumeEndEvent {
    type V = CollabResumeEndEventView;

    open spec fn deep_view(&self) -> CollabResumeEndEventView {
        CollabResumeEndEventView {
            call_id: self.call_id@,
            completed_at_ms: self.completed_at_ms,
            sender_thread_id: self.sender_thread_id,
            receiver_thread_id: self.receiver_thread_id,
            receiver_agent_nickname: self.receiver_agent_nickname.deep_view(),
            receiver_agent_role: self.receiver_agent_role.deep_view(),
            status: self.status.deep_view(),
        }
    }
}

/// Something happened to a sub-agent.
#[derive(Clone, Debug, PartialEq)]
pub struct SubAgentActivityEvent {
    pub event_id: String,
    pub occurred_at_ms: i64,
    pub agent_thread_id: ThreadId,
    pub agent_path: AgentPath,
    pub kind: SubAgentActivityKind,
}

/// What `SubAgentActivityEvent` stands for.
#[verifier::ext_equal]
pub struct SubAgentActivityEventView {
    pub event_id: Seq<char>,
    pub occurred_at_ms: i64,
    pub agent_thread_id: ThreadId,
    pub agent_path: Seq<char>,
    pub kind: SubAgentActivityKind,
}

impl DeepView for SubAgentActivityEvent {
    type V = SubAgentActivityEventView;

    open spec fn deep_view(&self) -> SubAgentActivityEventView {
        SubAgentActivityEventView {
            event_id: self.event_id@,
            occurred_at_ms: self.occurred_at_ms,
            agent_thread_id: self.agent_thread_id,
            agent_path: self.agent_path.deep_view(),
            kind: self.kind,
        }
    }
}

/// A web search ended.
#[derive(Clone, Debug, PartialEq)]
pub struct WebSearchEndEvent {
    pub call_id: String,
    pub query: String,
    pub action: WebSearchAction,
}

/// What `WebSearchEndEvent` stands for.
#[verifier::ext_equal]
pub struct WebSearchEndEventView {
    pub call_id: Seq<char>,
    pub query: Seq<char>,
    pub action: WebSearchActionView,
}

impl DeepView for WebSearchEndEvent {
    type V = WebSearchEndEventView;

    open spec fn deep_view(&self) -> WebSearchEndEventView {
        WebSearchEndEventView {
            call_id: self.call_id@,
            query: self.query@,
            action: self.action.deep_view(),
        }
    }
}

/// An image was looked at.
#[derive(Clone, Debug, PartialEq)]
pub struct ViewImageToolCallEvent {
    pub call_id: String,
    pub path: PathUri,
}

/// What `ViewImageToolCallEvent` stands for.
#[verifier::ext_equal]
pub struct ViewImageToolCallEventView {
    pub call_id: Seq<char>,
    pub path: Seq<char>,
}

impl DeepView for ViewImageToolCallEvent {
    type V = ViewImageToolCallEventView;

    open spec fn deep_view(&self) -> ViewImageToolCallEventView {
        ViewImageToolCallEventView {
            call_id: self.call_id@,
            path: self.path.deep_view(),
        }
    }
}

/// An image was generated.
#[derive(Clone, Debug, PartialEq)]
pub struct ImageGenerationEndEvent {
    pub call_id: String,
    pub status: String,
    pub revised_prompt: Option<String>,
    pub result: String,
    pub saved_path: Option<AbsolutePathBuf>,
}

/// What `ImageGenerationEndEvent` stands for.
#[verifier::ext_equal]
pub struct ImageGenerationEndEventView {
    pub call_id: Seq<char>,
    pub status: Seq<char>,
    pub revised_prompt: Option<Seq<char>>,
    pub result: Seq<char>,
    pub saved_path: Option<PathBuf>,
}

impl DeepView for ImageGenerationEndEvent {
    type V = ImageGenerationEndEventView;

    open spec fn deep_view(&self) -> ImageGenerationEndEventView {
        ImageGenerationEndEventView {
            call_id: self.call_id@,
            status: self.status@,
            revised_prompt: self.revised_prompt.deep_view(),
            result: self.result@,
            saved_path: self.saved_path.deep_view(),
        }
    }
}

/// A patch is about to be applied.
#[derive(Clone, Debug, PartialEq)]
pub struct PatchApplyBeginEvent {
    pub call_id: String,
    pub turn_id: String,
    pub auto_approved: bool,
    pub changes: HashMap<PathBuf, FileChange>,
}

/// What `PatchApplyBeginEvent` stands for.
#[verifier::ext_equal]
pub struct PatchApplyBeginEventView {
    pub call_id: Seq<char>,
    pub turn_id: Seq<char>,
    pub auto_approved: bool,
    pub changes: Map<PathBuf, FileChange>,
}

impl DeepView for PatchApplyBeginEvent {
    type V = PatchApplyBeginEventView;

    open spec fn deep_view(&self) -> PatchApplyBeginEventView {
        PatchApplyBeginEventView {
            call_id: self.call_id@,
            turn_id: self.turn_id@,
            auto_approved: self.auto_approved,
            changes: self.changes@,
        }
    }
}

/// A patch was applied, or not.
#[derive(Clone, Debug, PartialEq)]
pub struct PatchApplyEndEvent {
    pub call_id: String,
    pub turn_id: String,
    pub stdout: String,
    pub stderr: String,
    pub success: bool,
    pub changes: HashMap<PathBuf, FileChange>,
    pub status: PatchApplyStatus,
}

/// What `PatchApplyEndEvent` stands for.
#[verifier::ext_equal]
pub struct PatchApplyEndEventView {
    pub call_id: Seq<char>,
    pub turn_id: Seq<char>,
    pub stdout: Seq<char>,
    pub stderr: Seq<char>,
    pub success: bool,
    pub changes: Map<PathBuf, FileChange>,
    pub status: PatchApplyStatus,
}

impl DeepView for PatchApplyEndEvent {
    type V = PatchApplyEndEventView;

    open spec fn deep_view(&self) -> PatchApplyEndEventView {
        PatchApplyEndEventView {
            call_id: self.call_id@,
            turn_id: self.turn_id@,
            stdout: self.stdout@,
            stderr: self.stderr@,
            success: self.success,
            changes: self.changes@,
            status: self.status,
        }
    }
}

/// A call of a tool of an MCP server.
#[derive(Clone, Debug, PartialEq)]
pub struct McpInvocation {
    pub server: String,
    pub tool: String,
    pub arguments: Option<JsonValue>,
}

/// What `McpInvocation` stands for.
#[verifier::ext_equal]
pub struct McpInvocationView {
    pub server: Seq<char>,
    pub tool: Seq<char>,
    pub arguments: Option<JsonValueView>,
}

impl DeepView for McpInvocation {
    type V = McpInvocationView;

    open spec fn deep_view(&self) -> McpInvocationView {
        McpInvocationView {
            server: self.server@,
            tool: self.tool@,
            arguments: self.arguments.deep_view(),
        }
    }
}

impl Duplicate for McpInvocation {
    fn duplicate(&self) -> (copy: Self) {
        let copy = McpInvocation {
            server: self.server.clone(),
            tool: self.tool.clone(),
            arguments: self.arguments.duplicate(),
        };
        assert(copy.deep_view() =~= self.deep_view());
        copy
    }
}

/// A tool of an MCP server is about to be called.
#[derive(Clone, Debug, PartialEq)]
pub struct McpToolCallBeginEvent {
    pub call_id: String,
    pub invocation: McpInvocation,
    pub connector_id: Option<String>,
    pub mcp_app_resource_uri: Option<String>,
    pub link_id: Option<String>,
    pub plugin_id: Option<String>,
}

/// What `McpToolCallBeginEvent` stands for.
#[verifier::ext_equal]
pub struct McpToolCallBeginEventView {
    pub call_id: Seq<char>,
    pub invocation: McpInvocationView,
    pub connector_id: Option<Seq<char>>,
    pub mcp_app_resource_uri: Option<Seq<char>>,
    pub link_id: Option<Seq<char>>,
    pub plugin_id: Option<Seq<char>>,
}

impl DeepView for McpToolCallBeginEvent {
    type V = McpToolCallBeginEventView;

    open spec fn deep_view(&self) -> McpToolCallBeginEventView {
        McpToolCallBeginEventView {
            call_id: self.call_id@,
            invocation: self.invocation.deep_view(),
            connector_id: self.connector_id.deep_view(),
            mcp_app_resource_uri: self.mcp_app_resource_uri.deep_view(),
            link_id: self.link_id.deep_view(),
            plugin_id: self.plugin_id.deep_view(),
        }
    }
}

/// A tool of an MCP server was called.
#[derive(Debug, PartialEq)]
pub struct McpToolCallEndEvent {
    pub call_id: String,
    pub invocation: McpInvocation,
    pub mcp_app_resource_uri: Option<String>,
    pub connector_id: Option<String>,
    pub link_id: Option<String>,
    pub plugin_id: Option<String>,
    pub duration: Duration,
    /// What the tool gave back, or the message of its error.
    pub result: Result<CallToolResult, String>,
}

/// What `McpToolCallEndEvent` stands for.
#[verifier::ext_equal]
pub struct McpToolCallEndEventView {
    pub call_id: Seq<char>,
    pub invocation: McpInvocationView,
    pub mcp_app_resource_uri: Option<Seq<char>>,
    pub connector_id: Option<Seq<char>>,
    pub link_id: Option<Seq<char>>,
    pub plugin_id: Option<Seq<char>>,
    pub duration: nat,
    pub result: Result<CallToolResultView, Seq<char>>,
}

impl DeepView for McpToolCallEndEvent {
    type V = McpToolCallEndEventView;

    open spec fn deep_view(&self) -> McpToolCallEndEventView {
        McpToolCallEndEventView {
            call_id: self.call_id@,
            invocation: self.invocation.deep_view(),
            mcp_app_resource_uri: self.mcp_app_resource_uri.deep_view(),
            connector_id: self.connector_id.deep_view(),
            link_id: self.link_id.deep_view(),
            plugin_id: self.plugin_id.deep_view(),
            duration: self.duration@,
            result: match self.result {
                Ok(value) => Ok(value.deep_view()),
                Err(value) => Err(value.deep_view()),
            },
        }
    }
}

impl Duplicate for McpToolCallEndEvent {
    fn duplicate(&self) -> (copy: Self) {
        let copy = McpToolCallEndEvent {
            call_id: self.call_id.clone(),
            invocation: self.invocation.duplicate(),
            mcp_app_resource_uri: self.mcp_app_resource_uri.duplicate(),
            connector_id: self.connector_id.duplicate(),
            link_id: self.link_id.duplicate(),
            plugin_id: self.plugin_id.duplicate(),
            duration: self.duration,
            result: match &self.result {
                Ok(value) => Ok(value.duplicate()),
                Err(value) => Err(value.duplicate()),
            },
        };
        assert(copy.deep_view() =~= self.deep_view());
        copy
    }
}

impl Clone for McpToolCallEndEvent {
    fn clone(&self) -> (copy: Self)
        ensures
            copy.deep_view() == self.deep_view(),
    {
        self.duplicate()
    }
}

/// The context was compacted.
#[derive(Clone, Copy, Debug, PartialEq, Eq, Structural)]
pub struct ContextCompactedEvent {}

/// An event of a session.
#[derive(Clone, Debug, PartialEq)]
pub enum EventMsg {
    UserMessage(UserMessageEvent),
    AgentMessage(AgentMessageEvent),
    AgentReasoning(AgentReasoningEvent),
    AgentReasoningRawContent(AgentReasoningRawContentEvent),
    ExecCommandBegin(ExecCommandBeginEvent),
    ExecCommandEnd(ExecCommandEndEvent),
    DynamicToolCallRequest(DynamicToolCallRequest),
    DynamicToolCallResponse(DynamicToolCallResponseEvent),
    CollabAgentSpawnBegin(CollabAgentSpawnBeginEvent),
    CollabAgentSpawnEnd(CollabAgentSpawnEndEvent),
    CollabAgentInteractionBegin(CollabAgentInteractionBeginEvent),
    CollabAgentInteractionEnd(CollabAgentInteractionEndEvent),
    CollabWaitingBegin(CollabWaitingBeginEvent),
    CollabWaitingEnd(CollabWaitingEndEvent),
    CollabCloseBegin(CollabCloseBeginEvent),
    CollabCloseEnd(CollabCloseEndEvent),
    CollabResumeBegin(CollabResumeBeginEvent),
    CollabResumeEnd(CollabResumeEndEvent),
    SubAgentActivity(SubAgentActivityEvent),
    WebSearchEnd(WebSearchEndEvent),
    ViewImageToolCall(ViewImageToolCallEvent),
    ImageGenerationEnd(ImageGenerationEndEvent),
    PatchApplyBegin(PatchApplyBeginEvent),
    PatchApplyEnd(PatchApplyEndEvent),
    McpToolCallBegin(McpToolCallBeginEvent),
    McpToolCallEnd(McpToolCallEndEvent),
    ContextCompacted(ContextCompactedEvent),
}

/// What `EventMsg` stands for.
#[verifier::ext_equal]
pub enum EventMsgView {
    UserMessage(UserMessageEventView),
    AgentMessage(AgentMessageEventView),
    AgentReasoning(AgentReasoningEventView),
    AgentReasoningRawContent(AgentReasoningRawContentEventView),
    ExecCommandBegin(ExecCommandBeginEventView),
    ExecCommandEnd(ExecCommandEndEventView),
    DynamicToolCallRequest(DynamicToolCallRequestView),
    DynamicToolCallResponse(DynamicToolCallResponseEventView),
    CollabAgentSpawnBegin(CollabAgentSpawnBeginEventView),
    CollabAgentSpawnEnd(CollabAgentSpawnEndEventView),
    CollabAgentInteractionBegin(CollabAgentInteractionBeginEventView),
    CollabAgentInteractionEnd(CollabAgentInteractionEndEventView),
    CollabWaitingBegin(CollabWaitingBeginEventView),
    CollabWaitingEnd(CollabWaitingEndEventView),
    CollabCloseBegin(CollabCloseBeginEventView),
    CollabCloseEnd(CollabCloseEndEventView),
    CollabResumeBegin(CollabResumeBeginEventView),
    CollabResumeEnd(CollabResumeEndEventView),
    SubAgentActivity(SubAgentActivityEventView),
    WebSearchEnd(WebSearchEndEventView),
    ViewImageToolCall(ViewImageToolCallEventView),
    ImageGenerationEnd(ImageGenerationEndEventView),
    PatchApplyBegin(PatchApplyBeginEventView),
    PatchApplyEnd(PatchApplyEndEventView),
    McpToolCallBegin(McpToolCallBeginEventView),
    McpToolCallEnd(McpToolCallEndEventView),
    ContextCompacted(ContextCompactedEvent),
}

impl DeepView for EventMsg {
    type V = EventMsgView;

    open spec fn deep_view(&self) -> EventMsgView {
        match self {
            EventMsg::UserMessage(value) => EventMsgView::UserMessage(value.deep_view()),
            EventMsg::AgentMessage(value) => EventMsgView::AgentMessage(value.deep_view()),
            EventMsg::AgentReasoning(value) => EventMsgView::AgentReasoning(value.deep_view()),
            EventMsg::AgentReasoningRawContent(value) =>
                EventMsgView::AgentReasoningRawContent(value.deep_view()),
            EventMsg::ExecCommandBegin(value) => EventMsgView::ExecCommandBegin(value.deep_view()),
            EventMsg::ExecCommandEnd(value) => EventMsgView::ExecCommandEnd(value.deep_view()),
            EventMsg::DynamicToolCallRequest(value) =>
                EventMsgView::DynamicToolCallRequest(value.deep_view()),
            EventMsg::DynamicToolCallResponse(value) =>
                EventMsgView::DynamicToolCallResponse(value.deep_view()),
            EventMsg::CollabAgentSpawnBegin(value) =>
                EventMsgView::CollabAgentSpawnBegin(value.deep_view()),
            EventMsg::CollabAgentSpawnEnd(value) =>
                EventMsgView::CollabAgentSpawnEnd(value.deep_view()),
            EventMsg::CollabAgentInteractionBegin(value) =>
                EventMsgView::CollabAgentInteractionBegin(value.deep_view()),
            EventMsg::CollabAgentInteractionEnd(value) =>
                EventMsgView::CollabAgentInteractionEnd(value.deep_view()),
            EventMsg::CollabWaitingBegin(value) =>
                EventMsgView::CollabWaitingBegin(value.deep_view()),
            EventMsg::CollabWaitingEnd(value) => EventMsgView::CollabWaitingEnd(value.deep_view()),
            EventMsg::CollabCloseBegin(value) => EventMsgView::CollabCloseBegin(value.deep_view()),
            EventMsg::CollabCloseEnd(value) => EventMsgView::CollabCloseEnd(value.deep_view()),
            EventMsg::CollabResumeBegin(value) =>
                EventMsgView::CollabResumeBegin(value.deep_view()),
            EventMsg::CollabResumeEnd(value) => EventMsgView::CollabResumeEnd(value.deep_view()),
            EventMsg::SubAgentActivity(value) => EventMsgView::SubAgentActivity(value.deep_view()),
            EventMsg::WebSearchEnd(value) => EventMsgView::WebSearchEnd(value.deep_view()),
            EventMsg::ViewImageToolCall(value) =>
                EventMsgView::ViewImageToolCall(value.deep_view()),
            EventMsg::ImageGenerationEnd(value) =>
                EventMsgView::ImageGenerationEnd(value.deep_view()),
            EventMsg::PatchApplyBegin(value) => EventMsgView::PatchApplyBegin(value.deep_view()),
            EventMsg::PatchApplyEnd(value) => EventMsgView::PatchApplyEnd(value.deep_view()),
            EventMsg::McpToolCallBegin(value) => EventMsgView::McpToolCallBegin(value.deep_view()),
            EventMsg::McpToolCallEnd(value) => EventMsgView::McpToolCallEnd(value.deep_view()),
            EventMsg::ContextCompacted(value) => EventMsgView::ContextCompacted(*value),
        }
    }
}

} // verus!
